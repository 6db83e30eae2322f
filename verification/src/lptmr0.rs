//! Low-power timer used as an alarm.

use vstd::prelude::*;
use crate::deferred_call::DeferredCall;
use crate::error::ErrorCode;
use crate::time::expire_at;

verus! {

/// CSR bit 6: timer interrupt enable.
pub const CSR_TIE: u32 = 0x40;

/// CSR bit 7: timer compare flag.
pub const CSR_TCF: u32 = 0x80;

/// CMR bits 15:0: the compare value.
pub const CMR_COMPARE: u32 = 0xFFFF;

/// The registers of the low-power timer.
#[derive(Clone, Copy, Debug, PartialEq, Eq, Structural)]
pub struct Lptmr0Registers {
    /// Control and status register.
    pub csr: u32,
    /// Prescale register.
    pub psr: u32,
    /// Compare register.
    pub cmr: u32,
    /// Counter register.
    pub cnr: u32,
}

impl Lptmr0Registers {
    /// Every register reads zero.
    pub open spec fn zeroed(self) -> bool {
        &&& self.csr == 0
        &&& self.psr == 0
        &&& self.cmr == 0
        &&& self.cnr == 0
    }
}

/// The alarm driver of the low-power timer.
pub struct TimerAlarm {
    pub registers: Lptmr0Registers,
    pub deferred_call: Option<DeferredCall>,
}

/// What setting and clearing the interrupt enable bit does to it.
proof fn lemma_enable_bit(value: u32)
    by (bit_vector)
    ensures
        (value | CSR_TIE) & CSR_TIE != 0,
        (value & !CSR_TIE) & CSR_TIE == 0,
        (value & !CSR_TCF) & CSR_TCF == 0,
        (value & CMR_COMPARE) & CMR_COMPARE == value & CMR_COMPARE,
{
}

impl TimerAlarm {
    /// A driver over registers that read all zero, without a slot with the
    /// dispatcher yet.
    pub fn new() -> (timer: Self)
        ensures
            timer.registers.zeroed(),
            timer.deferred_call is None,
    {
        TimerAlarm {
            registers: Lptmr0Registers { csr: 0, psr: 0, cmr: 0, cnr: 0 },
            deferred_call: None,
        }
    }

    /// Gives the driver a fresh slot with the dispatcher.
    pub fn initialize(&mut self)
        ensures
            final(self).registers == old(self).registers,
            final(self).deferred_call == Some(DeferredCall { registered: false, pending: false }),
    {
        self.deferred_call = Some(DeferredCall::new());
    }

    /// `after` is what serving the timer's interrupt makes of `self`: the
    /// compare flag is cleared.
    pub open spec fn handled(self, after: TimerAlarm) -> bool {
        &&& after.registers == (Lptmr0Registers {
            csr: self.registers.csr & !CSR_TCF,
            ..self.registers
        })
        &&& after.deferred_call == self.deferred_call
    }

    /// Serves the timer's interrupt: clears the compare flag. The client's
    /// alarm callback is owed after every call.
    pub fn handle_interrupt(&mut self)
        ensures
            old(self).handled(*final(self)),
            final(self).registers.csr & CSR_TCF == 0,
    {
        proof {
            lemma_enable_bit(self.registers.csr);
        }
        self.registers.csr = self.registers.csr & !CSR_TCF;
    }

    /// The current tick: the counter register.
    pub fn now(&self) -> (ticks: u32)
        ensures
            ticks == self.registers.cnr,
    {
        self.registers.cnr
    }

    /// Sets the alarm to `dt` ticks after `reference`, of which the compare
    /// register keeps the low 16 bits, and enables the timer interrupt.
    pub fn set_alarm(&mut self, reference: u32, dt: u32)
        ensures
            final(self).registers == (Lptmr0Registers {
                cmr: crate::time::expiry(reference, dt) & CMR_COMPARE,
                csr: old(self).registers.csr | CSR_TIE,
                ..old(self).registers
            }),
            final(self).deferred_call == old(self).deferred_call,
            final(self).registers.csr & CSR_TIE != 0,
    {
        proof {
            lemma_enable_bit(self.registers.csr);
        }
        let expire = expire_at(reference, dt);
        self.registers.cmr = expire & CMR_COMPARE;
        self.registers.csr = self.registers.csr | CSR_TIE;
    }

    /// The compare value that the alarm is set to.
    pub fn get_alarm(&self) -> (ticks: u32)
        ensures
            ticks == self.registers.cmr & CMR_COMPARE,
    {
        self.registers.cmr & CMR_COMPARE
    }

    /// Disables the timer interrupt. Always succeeds.
    pub fn disarm(&mut self) -> (result: Result<(), ErrorCode>)
        ensures
            result is Ok,
            final(self).registers == (Lptmr0Registers {
                csr: old(self).registers.csr & !CSR_TIE,
                ..old(self).registers
            }),
            final(self).deferred_call == old(self).deferred_call,
            final(self).registers.csr & CSR_TIE == 0,
    {
        proof {
            lemma_enable_bit(self.registers.csr);
        }
        self.registers.csr = self.registers.csr & !CSR_TIE;
        Ok(())
    }

    /// Tells whether the timer interrupt is enabled.
    pub fn is_armed(&self) -> (armed: bool)
        ensures
            armed == (self.registers.csr & CSR_TIE != 0),
    {
        self.registers.csr & CSR_TIE != 0
    }

    /// The shortest alarm distance that the timer supports: one tick.
    pub fn minimum_dt(&self) -> (ticks: u32)
        ensures
            ticks == 1,
    {
        1
    }

    /// Registers the driver's handler with its slot, if it has a slot.
    pub fn register(&mut self)
        ensures
            final(self).registers == old(self).registers,
            final(self).deferred_call == match old(self).deferred_call {
                Some(call) => Some(call.with_handler()),
                None => None,
            },
    {
        if let Some(mut call) = self.deferred_call.take() {
            call.register();
            self.deferred_call = Some(call);
        }
    }

    /// What the dispatcher does with the driver's slot at a safe point:
    /// disarms it and tells whether the handler runs, in which case the
    /// client's alarm callback is owed.
    pub fn service_deferred_call(&mut self) -> (alarm: bool)
        ensures
            final(self).registers == old(self).registers,
            final(self).deferred_call == match old(self).deferred_call {
                Some(call) => Some(call.serviced()),
                None => None,
            },
            alarm == match old(self).deferred_call {
                Some(call) => call.due(),
                None => false,
            },
    {
        if let Some(mut call) = self.deferred_call.take() {
            let alarm = call.service();
            self.deferred_call = Some(call);
            alarm
        } else {
            false
        }
    }
}

} // verus!
