//! Real-time clock: a seconds counter with an alarm.

use vstd::prelude::*;
use crate::error::ErrorCode;
use crate::time::expire_at;

verus! {

/// SR bit 0: time invalid, which the driver takes for counter overflow.
pub const SR_TIF: u32 = 0x01;

/// SR bit 2: the alarm time was reached.
pub const SR_TAF: u32 = 0x04;

/// SR bit 4: the counter is enabled.
pub const SR_TCE: u32 = 0x10;

/// IER bit 1: overflow interrupt enable.
pub const IER_TOIE: u32 = 0x02;

/// IER bit 2: alarm interrupt enable.
pub const IER_TAIE: u32 = 0x04;

/// The registers of the real-time clock.
#[derive(Clone, Copy, Debug, PartialEq, Eq, Structural)]
pub struct RtcRegisters {
    /// Time seconds register.
    pub tsr: u32,
    /// Time prescaler register.
    pub tpr: u32,
    /// Time alarm register.
    pub tar: u32,
    /// Time compensation register.
    pub tcr: u32,
    /// Control register.
    pub cr: u32,
    /// Status register.
    pub sr: u32,
    /// Lock register.
    pub lr: u32,
    /// Interrupt enable register.
    pub ier: u32,
}

impl RtcRegisters {
    /// Every register reads zero.
    pub open spec fn zeroed(self) -> bool {
        &&& self.tsr == 0
        &&& self.tpr == 0
        &&& self.tar == 0
        &&& self.tcr == 0
        &&& self.cr == 0
        &&& self.sr == 0
        &&& self.lr == 0
        &&& self.ier == 0
    }
}

/// The callbacks that one interrupt raised, in the order in which the
/// clients are told.
#[derive(Clone, Copy, Debug, PartialEq, Eq, Structural)]
pub struct RtcInterrupt {
    /// The overflow client's `overflow` is owed.
    pub overflow: bool,
    /// The alarm client's `alarm` is owed.
    pub alarm: bool,
}

/// The real-time clock driver.
pub struct Rtc {
    pub registers: RtcRegisters,
    pub enabled: bool,
}

/// Clearing a flag clears it and nothing else.
proof fn lemma_flags(value: u32)
    by (bit_vector)
    ensures
        (value & !SR_TIF) & SR_TIF == 0,
        (value & !SR_TAF) & SR_TAF == 0,
        (value & !SR_TIF) & SR_TAF == value & SR_TAF,
        (value & !SR_TAF) & SR_TIF == value & SR_TIF,
        (value | IER_TAIE) & IER_TAIE != 0,
        (value & !IER_TAIE) & IER_TAIE == 0,
{
}

impl Rtc {
    /// The status register after an interrupt was served with it: the
    /// overflow and alarm flags that were set are cleared.
    pub open spec fn served(sr: u32) -> u32 {
        let first = if sr & SR_TIF != 0 {
            sr & !SR_TIF
        } else {
            sr
        };
        if first & SR_TAF != 0 {
            first & !SR_TAF
        } else {
            first
        }
    }

    /// A stopped driver over registers that read all zero.
    pub fn new() -> (rtc: Self)
        ensures
            !rtc.enabled,
            rtc.registers.zeroed(),
    {
        Rtc {
            registers: RtcRegisters { tsr: 0, tpr: 0, tar: 0, tcr: 0, cr: 0, sr: 0, lr: 0, ier: 0 },
            enabled: false,
        }
    }

    /// `after` and `events` are what serving the clock's interrupt makes of
    /// `self`: the overflow flag and the alarm flag are cleared and
    /// reported, each if it is set.
    pub open spec fn handled(self, after: Rtc, events: RtcInterrupt) -> bool {
        &&& events.overflow == (self.registers.sr & SR_TIF != 0)
        &&& events.alarm == (self.registers.sr & SR_TAF != 0)
        &&& after.registers == (RtcRegisters {
            sr: Self::served(self.registers.sr),
            ..self.registers
        })
        &&& after.enabled == self.enabled
    }

    /// Serves the clock's interrupt: clears and reports the overflow flag
    /// and the alarm flag, each if it is set.
    pub fn handle_interrupt(&mut self) -> (events: RtcInterrupt)
        ensures
            old(self).handled(*final(self), events),
            final(self).registers.sr & SR_TIF == 0,
            final(self).registers.sr & SR_TAF == 0,
    {
        proof {
            lemma_flags(self.registers.sr);
        }
        let overflow = self.registers.sr & SR_TIF != 0;
        if overflow {
            self.registers.sr = self.registers.sr & !SR_TIF;
        }
        proof {
            lemma_flags(self.registers.sr);
        }
        let alarm = self.registers.sr & SR_TAF != 0;
        if alarm {
            self.registers.sr = self.registers.sr & !SR_TAF;
        }
        RtcInterrupt { overflow, alarm }
    }

    /// The current tick: the seconds counter.
    pub fn now(&self) -> (ticks: u32)
        ensures
            ticks == self.registers.tsr,
    {
        self.registers.tsr
    }

    /// Enables the overflow interrupt, which goes with the registration of
    /// an overflow client.
    pub fn enable_overflow_interrupt(&mut self)
        ensures
            final(self).registers == (RtcRegisters {
                ier: old(self).registers.ier | IER_TOIE,
                ..old(self).registers
            }),
            final(self).enabled == old(self).enabled,
    {
        self.registers.ier = self.registers.ier | IER_TOIE;
    }

    /// Starts the counter: zeroes the prescaler and sets the counter
    /// enable bit. Always succeeds.
    pub fn start(&mut self) -> (result: Result<(), ErrorCode>)
        ensures
            result is Ok,
            final(self).enabled,
            final(self).registers == (RtcRegisters {
                tpr: 0,
                sr: old(self).registers.sr | SR_TCE,
                ..old(self).registers
            }),
    {
        self.registers.tpr = 0;
        self.registers.sr = self.registers.sr | SR_TCE;
        self.enabled = true;
        Ok(())
    }

    /// Stops the counter: clears the counter enable bit. Always succeeds.
    pub fn stop(&mut self) -> (result: Result<(), ErrorCode>)
        ensures
            result is Ok,
            !final(self).enabled,
            final(self).registers == (RtcRegisters {
                sr: old(self).registers.sr & !SR_TCE,
                ..old(self).registers
            }),
    {
        self.registers.sr = self.registers.sr & !SR_TCE;
        self.enabled = false;
        Ok(())
    }

    /// Sets the seconds counter back to zero. Always succeeds.
    pub fn reset(&mut self) -> (result: Result<(), ErrorCode>)
        ensures
            result is Ok,
            final(self).enabled == old(self).enabled,
            final(self).registers == (RtcRegisters { tsr: 0, ..old(self).registers }),
    {
        self.registers.tsr = 0;
        Ok(())
    }

    /// Tells whether the counter was started and not stopped since.
    pub fn is_running(&self) -> (running: bool)
        ensures
            running == self.enabled,
    {
        self.enabled
    }

    /// Sets the alarm to `dt` ticks after `reference` and enables its
    /// interrupt.
    pub fn set_alarm(&mut self, reference: u32, dt: u32)
        ensures
            final(self).registers == (RtcRegisters {
                tar: crate::time::expiry(reference, dt),
                ier: old(self).registers.ier | IER_TAIE,
                ..old(self).registers
            }),
            final(self).enabled == old(self).enabled,
            final(self).registers.ier & IER_TAIE != 0,
    {
        proof {
            lemma_flags(self.registers.ier);
        }
        let expire = expire_at(reference, dt);
        self.registers.tar = expire;
        self.registers.ier = self.registers.ier | IER_TAIE;
    }

    /// The tick at which the alarm is set to expire.
    pub fn get_alarm(&self) -> (ticks: u32)
        ensures
            ticks == self.registers.tar,
    {
        self.registers.tar
    }

    /// Disables the alarm interrupt. Always succeeds.
    pub fn disarm(&mut self) -> (result: Result<(), ErrorCode>)
        ensures
            result is Ok,
            final(self).registers == (RtcRegisters {
                ier: old(self).registers.ier & !IER_TAIE,
                ..old(self).registers
            }),
            final(self).enabled == old(self).enabled,
            final(self).registers.ier & IER_TAIE == 0,
    {
        proof {
            lemma_flags(self.registers.ier);
        }
        self.registers.ier = self.registers.ier & !IER_TAIE;
        Ok(())
    }

    /// Tells whether the alarm interrupt is enabled.
    pub fn is_armed(&self) -> (armed: bool)
        ensures
            armed == (self.registers.ier & IER_TAIE != 0),
    {
        self.registers.ier & IER_TAIE != 0
    }

    /// The shortest alarm distance that the clock supports: one tick.
    pub fn minimum_dt(&self) -> (ticks: u32)
        ensures
            ticks == 1,
    {
        1
    }
}

} // verus!
