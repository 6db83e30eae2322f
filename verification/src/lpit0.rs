//! Low-power periodic interrupt timer, channel 0, used as an alarm: once
//! with the alarm raised straight from the interrupt (`Lpit0Timer`), once
//! with the alarm raised from a deferred call (`TimerAlarm`).

use vstd::prelude::*;
use crate::deferred_call::DeferredCall;
use crate::error::ErrorCode;
use crate::time::expire_at;

verus! {

/// MIER bit 0: channel 0 interrupt enable.
pub const MIER_TIE0: u32 = 0x01;

/// TCTRL bit 0: channel enable.
pub const TCTRL_T_EN: u32 = 0x01;

/// The shortest alarm distance that the timer supports, in ticks.
pub const MINIMUM_DT: u32 = 10;

/// The registers of the periodic interrupt timer.
#[derive(Clone, Copy, Debug, PartialEq, Eq)]
pub struct Lpit0Registers {
    /// Module control register.
    pub mcr: u32,
    /// Module interrupt enable register.
    pub mier: u32,
    /// Set timer enable register.
    pub setten: u32,
    /// Clear timer enable register.
    pub clrten: u32,
    /// Timer value registers.
    pub tval: [u32; 4],
    /// Current timer value registers.
    pub cval: [u32; 4],
    /// Timer control registers.
    pub tctrl: [u32; 4],
}

/// What setting and clearing bit 0 does to it.
proof fn lemma_bit0(value: u32)
    by (bit_vector)
    ensures
        (value | 1u32) & 1u32 != 0,
        (value & !1u32) & 1u32 == 0,
{
}

impl Lpit0Registers {
    /// Every register reads zero.
    pub open spec fn zeroed(self) -> bool {
        &&& self.mcr == 0
        &&& self.mier == 0
        &&& self.setten == 0
        &&& self.clrten == 0
        &&& forall|i: int| 0 <= i < 4 ==> self.tval@[i] == 0
        &&& forall|i: int| 0 <= i < 4 ==> self.cval@[i] == 0
        &&& forall|i: int| 0 <= i < 4 ==> self.tctrl@[i] == 0
    }

    /// The registers with channel 0's interrupt disabled.
    pub open spec fn interrupt_disabled(self) -> Lpit0Registers {
        Lpit0Registers { mier: self.mier & !MIER_TIE0, ..self }
    }

    /// The registers with channel 0 set to `expire`, enabled, and its
    /// interrupt enabled.
    pub open spec fn alarm_set(self, expire: u32, after: Lpit0Registers) -> bool {
        &&& after.mcr == self.mcr
        &&& after.mier == self.mier | MIER_TIE0
        &&& after.setten == self.setten
        &&& after.clrten == self.clrten
        &&& after.tval@ == self.tval@.update(0, expire)
        &&& after.cval == self.cval
        &&& after.tctrl@ == self.tctrl@.update(0, self.tctrl[0] | TCTRL_T_EN)
    }

    /// The registers with channel 0 disabled.
    pub open spec fn disarmed(self, after: Lpit0Registers) -> bool {
        &&& after.mcr == self.mcr
        &&& after.mier == self.mier
        &&& after.setten == self.setten
        &&& after.clrten == self.clrten
        &&& after.tval == self.tval
        &&& after.cval == self.cval
        &&& after.tctrl@ == self.tctrl@.update(0, self.tctrl[0] & !TCTRL_T_EN)
    }

    /// Channel 0 is enabled.
    pub open spec fn armed(self) -> bool {
        self.tctrl[0] & TCTRL_T_EN != 0
    }

    fn new() -> (registers: Self)
        ensures
            registers.zeroed(),
    {
        let registers = Lpit0Registers {
            mcr: 0,
            mier: 0,
            setten: 0,
            clrten: 0,
            tval: [0, 0, 0, 0],
            cval: [0, 0, 0, 0],
            tctrl: [0, 0, 0, 0],
        };
        registers
    }

    fn disable_interrupt(&mut self)
        ensures
            *final(self) == old(self).interrupt_disabled(),
            final(self).mier & MIER_TIE0 == 0,
    {
        proof {
            lemma_bit0(self.mier);
        }
        self.mier = self.mier & !MIER_TIE0;
    }

    fn set_alarm(&mut self, reference: u32, dt: u32)
        ensures
            old(self).alarm_set(crate::time::expiry(reference, dt), *final(self)),
            final(self).armed(),
    {
        proof {
            lemma_bit0(self.tctrl[0]);
        }
        let expire = expire_at(reference, dt);
        self.tval[0] = expire;
        let control = self.tctrl[0];
        self.tctrl[0] = control | TCTRL_T_EN;
        self.mier = self.mier | MIER_TIE0;
    }

    fn disarm(&mut self)
        ensures
            old(self).disarmed(*final(self)),
            !final(self).armed(),
    {
        proof {
            lemma_bit0(self.tctrl[0]);
        }
        let control = self.tctrl[0];
        self.tctrl[0] = control & !TCTRL_T_EN;
    }
}

/// The alarm driver that raises the alarm from the interrupt.
pub struct Lpit0Timer {
    pub registers: Lpit0Registers,
    pub deferred_call: Option<DeferredCall>,
}

impl Lpit0Timer {
    /// A driver over registers that read all zero, without a slot with the
    /// dispatcher yet.
    pub fn new() -> (timer: Self)
        ensures
            timer.registers.zeroed(),
            timer.deferred_call is None,
    {
        Lpit0Timer { registers: Lpit0Registers::new(), deferred_call: None }
    }

    /// Gives the driver a fresh slot with the dispatcher.
    pub fn initialize(&mut self)
        ensures
            final(self).registers == old(self).registers,
            final(self).deferred_call == Some(DeferredCall { registered: false, pending: false }),
    {
        self.deferred_call = Some(DeferredCall::new());
    }

    /// `after` is what serving the timer's interrupt makes of `self`: the
    /// channel's interrupt is disabled.
    pub open spec fn handled(self, after: Lpit0Timer) -> bool {
        &&& after.registers == self.registers.interrupt_disabled()
        &&& after.deferred_call == self.deferred_call
    }

    /// Serves the timer's interrupt: disables the channel's interrupt. The
    /// client's alarm callback is owed after every call.
    pub fn handle_interrupt(&mut self)
        ensures
            old(self).handled(*final(self)),
    {
        self.registers.disable_interrupt();
    }

    /// The current tick: channel 0's current value.
    pub fn now(&self) -> (ticks: u32)
        ensures
            ticks == self.registers.cval[0],
    {
        self.registers.cval[0]
    }

    /// Sets the alarm to `dt` ticks after `reference`, enables the channel
    /// and its interrupt.
    pub fn set_alarm(&mut self, reference: u32, dt: u32)
        ensures
            old(self).registers.alarm_set(
                crate::time::expiry(reference, dt),
                final(self).registers,
            ),
            final(self).registers.armed(),
            final(self).deferred_call == old(self).deferred_call,
    {
        self.registers.set_alarm(reference, dt);
    }

    /// The tick that the alarm is set to.
    pub fn get_alarm(&self) -> (ticks: u32)
        ensures
            ticks == self.registers.tval[0],
    {
        self.registers.tval[0]
    }

    /// Disables the channel. Always succeeds.
    pub fn disarm(&mut self) -> (result: Result<(), ErrorCode>)
        ensures
            result is Ok,
            old(self).registers.disarmed(final(self).registers),
            !final(self).registers.armed(),
            final(self).deferred_call == old(self).deferred_call,
    {
        self.registers.disarm();
        Ok(())
    }

    /// Tells whether the channel is enabled.
    pub fn is_armed(&self) -> (armed: bool)
        ensures
            armed == self.registers.armed(),
    {
        self.registers.tctrl[0] & TCTRL_T_EN != 0
    }

    /// The shortest alarm distance that the timer supports.
    pub fn minimum_dt(&self) -> (ticks: u32)
        ensures
            ticks == MINIMUM_DT,
    {
        MINIMUM_DT
    }

    /// Registers the driver's handler with its slot, if it has a slot.
    pub fn register(&mut self)
        ensures
            final(self).registers == old(self).registers,
            final(self).deferred_call == match old(self).deferred_call {
                Some(call) => Some(call.with_handler()),
                None => None,
            },
    {
        if let Some(mut call) = self.deferred_call.take() {
            call.register();
            self.deferred_call = Some(call);
        }
    }

    /// What the dispatcher does with the driver's slot at a safe point:
    /// disarms it and tells whether the handler runs, in which case the
    /// client's alarm callback is owed.
    pub fn service_deferred_call(&mut self) -> (alarm: bool)
        ensures
            final(self).registers == old(self).registers,
            final(self).deferred_call == match old(self).deferred_call {
                Some(call) => Some(call.serviced()),
                None => None,
            },
            alarm == match old(self).deferred_call {
                Some(call) => call.due(),
                None => false,
            },
    {
        if let Some(mut call) = self.deferred_call.take() {
            let alarm = call.service();
            self.deferred_call = Some(call);
            alarm
        } else {
            false
        }
    }
}

/// The alarm driver that raises the alarm from a deferred call.
pub struct TimerAlarm {
    pub registers: Lpit0Registers,
    pub deferred_call: Option<DeferredCall>,
}

impl TimerAlarm {
    /// A driver over registers that read all zero, without a slot with the
    /// dispatcher yet.
    pub fn new() -> (timer: Self)
        ensures
            timer.registers.zeroed(),
            timer.deferred_call is None,
    {
        TimerAlarm { registers: Lpit0Registers::new(), deferred_call: None }
    }

    /// Gives the driver a fresh slot with the dispatcher.
    pub fn initialize(&mut self)
        ensures
            final(self).registers == old(self).registers,
            final(self).deferred_call == Some(DeferredCall { registered: false, pending: false }),
    {
        self.deferred_call = Some(DeferredCall::new());
    }

    /// `after` is what serving the timer's interrupt makes of `self`: the
    /// channel's interrupt is disabled and the driver's slot, if it has
    /// one, is armed.
    pub open spec fn handled(self, after: TimerAlarm) -> bool {
        &&& after.registers == self.registers.interrupt_disabled()
        &&& after.deferred_call == match self.deferred_call {
            Some(call) => Some(call.armed()),
            None => None,
        }
    }

    /// Serves the timer's interrupt: disables the channel's interrupt and
    /// arms the driver's slot, if it has one, so that the alarm is raised
    /// from the deferred call.
    pub fn handle_interrupt(&mut self)
        ensures
            old(self).handled(*final(self)),
    {
        self.registers.disable_interrupt();
        if let Some(mut call) = self.deferred_call.take() {
            call.set();
            self.deferred_call = Some(call);
        }
    }

    /// The current tick: channel 0's current value.
    pub fn now(&self) -> (ticks: u32)
        ensures
            ticks == self.registers.cval[0],
    {
        self.registers.cval[0]
    }

    /// Sets the alarm to `dt` ticks after `reference`, enables the channel
    /// and its interrupt.
    pub fn set_alarm(&mut self, reference: u32, dt: u32)
        ensures
            old(self).registers.alarm_set(
                crate::time::expiry(reference, dt),
                final(self).registers,
            ),
            final(self).registers.armed(),
            final(self).deferred_call == old(self).deferred_call,
    {
        self.registers.set_alarm(reference, dt);
    }

    /// The tick that the alarm is set to.
    pub fn get_alarm(&self) -> (ticks: u32)
        ensures
            ticks == self.registers.tval[0],
    {
        self.registers.tval[0]
    }

    /// Disables the channel. Always succeeds.
    pub fn disarm(&mut self) -> (result: Result<(), ErrorCode>)
        ensures
            result is Ok,
            old(self).registers.disarmed(final(self).registers),
            !final(self).registers.armed(),
            final(self).deferred_call == old(self).deferred_call,
    {
        self.registers.disarm();
        Ok(())
    }

    /// Tells whether the channel is enabled.
    pub fn is_armed(&self) -> (armed: bool)
        ensures
            armed == self.registers.armed(),
    {
        self.registers.tctrl[0] & TCTRL_T_EN != 0
    }

    /// The shortest alarm distance that the timer supports.
    pub fn minimum_dt(&self) -> (ticks: u32)
        ensures
            ticks == MINIMUM_DT,
    {
        MINIMUM_DT
    }

    /// Registers the driver's handler with its slot, if it has a slot.
    pub fn register(&mut self)
        ensures
            final(self).registers == old(self).registers,
            final(self).deferred_call == match old(self).deferred_call {
                Some(call) => Some(call.with_handler()),
                None => None,
            },
    {
        if let Some(mut call) = self.deferred_call.take() {
            call.register();
            self.deferred_call = Some(call);
        }
    }

    /// What the dispatcher does with the driver's slot at a safe point:
    /// disarms it and tells whether the handler runs, in which case the
    /// client's alarm callback is owed.
    pub fn service_deferred_call(&mut self) -> (alarm: bool)
        ensures
            final(self).registers == old(self).registers,
            final(self).deferred_call == match old(self).deferred_call {
                Some(call) => Some(call.serviced()),
                None => None,
            },
            alarm == match old(self).deferred_call {
                Some(call) => call.due(),
                None => false,
            },
    {
        if let Some(mut call) = self.deferred_call.take() {
            let alarm = call.service();
            self.deferred_call = Some(call);
            alarm
        } else {
            false
        }
    }
}

} // verus!
