//! FlexTimer module 0 as a pulse-width modulator.

use vstd::prelude::*;
use crate::error::ErrorCode;
use crate::pinmux::{Pinmux, PortRegisters, NUM_PORTS, PCR_MUX, PCR_MUX_ALT2_FTM};

verus! {

/// Channels of the timer.
pub const NUM_CHANNELS: usize = 8;

/// The clock that the counter runs from, in hertz.
pub const CLOCK_HZ: usize = 16000000;

/// SC bits 4:0: clock source and prescaler.
pub const SC_CLKS_PS: u32 = 0x1F;

/// SC clock source and prescaler set to the system clock, divided by 1.
pub const SC_SYSTEM_CLOCK_DIV1: u32 = 0x08;

/// MOD bits 15:0: the counter's top value.
pub const MOD_MOD: u32 = 0xFFFF;

/// CSC bit 3: edge or level select B.
pub const CSC_ELSB: u32 = 0x08;

/// CSC bit 5: channel mode select B.
pub const CSC_MSB: u32 = 0x20;

/// CV bits 15:0: the channel value.
pub const CV_VAL: u32 = 0xFFFF;

/// STATUS bit 0: channel 0 event flag.
pub const STATUS_CH0F: u32 = 0x01;

/// STATUS bits 7:0: the event flags of all channels.
pub const STATUS_FLAGS: u32 = 0xFF;

/// SYNC bit 7: software trigger.
pub const SYNC_SWSYNC: u32 = 0x80;

/// PWMLOAD bit 9: load enable.
pub const PWMLOAD_LDOK: u32 = 0x200;

/// The registers of the FlexTimer.
#[derive(Clone, Copy, Debug, PartialEq, Eq)]
pub struct FtmRegisters {
    pub sc: u32,
    pub cnt: u32,
    pub mod_: u32,
    pub csc: [u32; 8],
    pub cv: [u32; 8],
    pub cntin: u32,
    pub status: u32,
    pub mode: u32,
    pub sync: u32,
    pub outinit: u32,
    pub outmask: u32,
    pub combine: u32,
    pub deadtime: u32,
    pub exttrig: u32,
    pub pol: u32,
    pub fms: u32,
    pub filter: u32,
    pub fltctrl: u32,
    pub qdctrl: u32,
    pub conf: u32,
    pub fltpol: u32,
    pub synconf: u32,
    pub invctrl: u32,
    pub swoctrl: u32,
    pub pwmload: u32,
    pub hcr: u32,
    pub pairdeadtime: [u32; 4],
}

/// The counter's top value for a signal of `frequency_hz`.
pub open spec fn counter_top(frequency_hz: usize) -> int {
    CLOCK_HZ as int / frequency_hz as int
}

/// The channel value for a signal of `frequency_hz` that is high for
/// `duty_cycle` percent of its period.
pub open spec fn duty_count(frequency_hz: usize, duty_cycle: usize) -> int {
    counter_top(frequency_hz) * duty_cycle / 100
}

impl FtmRegisters {
    /// Every register reads zero.
    pub open spec fn zeroed(self) -> bool {
        &&& self.sc == 0
        &&& self.cnt == 0
        &&& self.mod_ == 0
        &&& forall|i: int| 0 <= i < 8 ==> self.csc@[i] == 0
        &&& forall|i: int| 0 <= i < 8 ==> self.cv@[i] == 0
        &&& self.cntin == 0
        &&& self.status == 0
        &&& self.mode == 0
        &&& self.sync == 0
        &&& self.outinit == 0
        &&& self.outmask == 0
        &&& self.combine == 0
        &&& self.deadtime == 0
        &&& self.exttrig == 0
        &&& self.pol == 0
        &&& self.fms == 0
        &&& self.filter == 0
        &&& self.fltctrl == 0
        &&& self.qdctrl == 0
        &&& self.conf == 0
        &&& self.fltpol == 0
        &&& self.synconf == 0
        &&& self.invctrl == 0
        &&& self.swoctrl == 0
        &&& self.pwmload == 0
        &&& self.hcr == 0
        &&& forall|i: int| 0 <= i < 4 ==> self.pairdeadtime@[i] == 0
    }

    /// `after` is `self` set up to put out a signal on channel `channel`:
    /// the counter runs from the undivided system clock up to `top`, the
    /// channel is in edge-aligned mode with value `duty`, and the new values
    /// are loaded by a software trigger.
    pub open spec fn started(self, after: FtmRegisters, channel: int, top: u32, duty: u32) -> bool {
        &&& after.sc == (self.sc & !SC_CLKS_PS) | SC_SYSTEM_CLOCK_DIV1
        &&& after.mod_ == top & MOD_MOD
        &&& after.csc@ == self.csc@.update(channel, self.csc[channel] | CSC_MSB | CSC_ELSB)
        &&& after.cv@ == self.cv@.update(channel, duty & CV_VAL)
        &&& after.pwmload == self.pwmload | PWMLOAD_LDOK
        &&& after.sync == self.sync | SYNC_SWSYNC
        &&& after.cnt == self.cnt
        &&& after.cntin == self.cntin
        &&& after.status == self.status
        &&& after.mode == self.mode
        &&& after.outinit == self.outinit
        &&& after.outmask == self.outmask
        &&& after.combine == self.combine
        &&& after.deadtime == self.deadtime
        &&& after.exttrig == self.exttrig
        &&& after.pol == self.pol
        &&& after.fms == self.fms
        &&& after.filter == self.filter
        &&& after.fltctrl == self.fltctrl
        &&& after.qdctrl == self.qdctrl
        &&& after.conf == self.conf
        &&& after.fltpol == self.fltpol
        &&& after.synconf == self.synconf
        &&& after.invctrl == self.invctrl
        &&& after.swoctrl == self.swoctrl
        &&& after.hcr == self.hcr
        &&& after.pairdeadtime == self.pairdeadtime
    }

    /// `after` is `self` with channel `channel` taken out of its mode.
    pub open spec fn stopped(self, after: FtmRegisters, channel: int) -> bool {
        &&& after.csc@ == self.csc@.update(channel, self.csc[channel] & !CSC_MSB)
        &&& after.sc == self.sc
        &&& after.cnt == self.cnt
        &&& after.mod_ == self.mod_
        &&& after.cv == self.cv
        &&& after.cntin == self.cntin
        &&& after.status == self.status
        &&& after.mode == self.mode
        &&& after.sync == self.sync
        &&& after.outinit == self.outinit
        &&& after.outmask == self.outmask
        &&& after.combine == self.combine
        &&& after.deadtime == self.deadtime
        &&& after.exttrig == self.exttrig
        &&& after.pol == self.pol
        &&& after.fms == self.fms
        &&& after.filter == self.filter
        &&& after.fltctrl == self.fltctrl
        &&& after.qdctrl == self.qdctrl
        &&& after.conf == self.conf
        &&& after.fltpol == self.fltpol
        &&& after.synconf == self.synconf
        &&& after.invctrl == self.invctrl
        &&& after.swoctrl == self.swoctrl
        &&& after.pwmload == self.pwmload
        &&& after.hcr == self.hcr
        &&& after.pairdeadtime == self.pairdeadtime
    }

    /// The status register after the timer's interrupt was served with it:
    /// if any channel flagged an event, channel 0's flag is cleared.
    pub open spec fn served(status: u32) -> u32 {
        if status & STATUS_FLAGS != 0 {
            status & !STATUS_CH0F
        } else {
            status
        }
    }
}

/// The pulse-width modulator.
pub struct Pwm {
    pub registers: FtmRegisters,
}

/// Facts about the event flags that the interrupt handler goes through.
proof fn lemma_event_flags(status: u32, channel: u32)
    by (bit_vector)
    requires
        channel < 8,
    ensures
        status & (1u32 << channel) != 0 ==> status & STATUS_FLAGS != 0,
        (status & !STATUS_CH0F) & !STATUS_CH0F == status & !STATUS_CH0F,
        status & STATUS_FLAGS != 0 ==> status & 0x01 != 0 || status & 0x02 != 0 || status & 0x04
            != 0 || status & 0x08 != 0 || status & 0x10 != 0 || status & 0x20 != 0 || status & 0x40
            != 0 || status & 0x80 != 0,
        1u32 << 0 == 0x01 && 1u32 << 1 == 0x02 && 1u32 << 2 == 0x04 && 1u32 << 3 == 0x08 && 1u32
            << 4 == 0x10 && 1u32 << 5 == 0x20 && 1u32 << 6 == 0x40 && 1u32 << 7 == 0x80,
{
}

impl Pwm {
    /// A modulator over registers that read all zero.
    pub fn new() -> (pwm: Pwm)
        ensures
            pwm.registers.zeroed(),
    {
        Pwm {
            registers: FtmRegisters {
                sc: 0,
                cnt: 0,
                mod_: 0,
                csc: [0, 0, 0, 0, 0, 0, 0, 0],
                cv: [0, 0, 0, 0, 0, 0, 0, 0],
                cntin: 0,
                status: 0,
                mode: 0,
                sync: 0,
                outinit: 0,
                outmask: 0,
                combine: 0,
                deadtime: 0,
                exttrig: 0,
                pol: 0,
                fms: 0,
                filter: 0,
                fltctrl: 0,
                qdctrl: 0,
                conf: 0,
                fltpol: 0,
                synconf: 0,
                invctrl: 0,
                swoctrl: 0,
                pwmload: 0,
                hcr: 0,
                pairdeadtime: [0, 0, 0, 0],
            },
        }
    }

    /// Puts out a signal of `frequency_hz` with a duty cycle of
    /// `duty_cycle` percent on the timer channel given by `pin`'s pin
    /// number, and hands the pin over to the timer in `ports`.
    ///
    /// A pin number that is no channel is `Invalid`. A frequency of 0 stops
    /// the channel instead.
    pub fn start_pwm(
        &mut self,
        pin: Pinmux,
        frequency_hz: usize,
        duty_cycle: usize,
        ports: &mut [PortRegisters; NUM_PORTS],
    ) -> (result: Result<(), ErrorCode>)
        requires
            pin.pin() < NUM_CHANNELS && frequency_hz != 0 ==> counter_top(frequency_hz)
                * duty_cycle <= usize::MAX,
        ensures
            pin.pin() >= NUM_CHANNELS ==> result == Err::<(), ErrorCode>(ErrorCode::Invalid)
                && final(self).registers == old(self).registers && *final(ports) == *old(ports),
            pin.pin() < NUM_CHANNELS && frequency_hz == 0 ==> {
                &&& result is Ok
                &&& old(self).registers.stopped(final(self).registers, pin.pin() as int)
                &&& *final(ports) == *old(ports)
            },
            pin.pin() < NUM_CHANNELS && frequency_hz != 0 ==> {
                &&& result is Ok
                &&& old(self).registers.started(
                    final(self).registers,
                    pin.pin() as int,
                    counter_top(frequency_hz) as u32,
                    duty_count(frequency_hz, duty_cycle) as u32,
                )
                &&& final(ports)@ == old(ports)@.update(
                    pin.port() as int,
                    PortRegisters {
                        pcr: final(ports)@[pin.port() as int].pcr,
                    },
                )
                &&& final(ports)@[pin.port() as int].pcr@ == old(ports)@[pin.port() as int]
                    .pcr@.update(
                    pin.pin() as int,
                    (old(ports)@[pin.port() as int].pcr[pin.pin() as int] & !PCR_MUX)
                        | PCR_MUX_ALT2_FTM,
                )
            },
    {
        let (port, channel) = pin.port_pin();
        if channel >= NUM_CHANNELS {
            return Err(ErrorCode::Invalid);
        }
        if frequency_hz == 0 {
            return self.stop_pwm(pin);
        }
        let counter_top = CLOCK_HZ / frequency_hz;
        let dc_out = counter_top * duty_cycle / 100;

        let control = ports[port].pcr[channel];
        ports[port].pcr[channel] = (control & !PCR_MUX) | PCR_MUX_ALT2_FTM;

        self.registers.sc = (self.registers.sc & !SC_CLKS_PS) | SC_SYSTEM_CLOCK_DIV1;
        self.registers.mod_ = (counter_top as u32) & MOD_MOD;

        let mode = self.registers.csc[channel];
        self.registers.csc[channel] = mode | CSC_MSB | CSC_ELSB;
        self.registers.cv[channel] = (dc_out as u32) & CV_VAL;

        self.registers.pwmload = self.registers.pwmload | PWMLOAD_LDOK;
        self.registers.sync = self.registers.sync | SYNC_SWSYNC;
        Ok(())
    }

    /// Stops the signal on the timer channel given by `pin`'s pin number.
    /// A pin number that is no channel is `Invalid`.
    pub fn stop_pwm(&mut self, pin: Pinmux) -> (result: Result<(), ErrorCode>)
        ensures
            pin.pin() >= NUM_CHANNELS ==> result == Err::<(), ErrorCode>(ErrorCode::Invalid)
                && final(self).registers == old(self).registers,
            pin.pin() < NUM_CHANNELS ==> result is Ok && old(self).registers.stopped(
                final(self).registers,
                pin.pin() as int,
            ),
    {
        let (_, channel) = pin.port_pin();
        if channel >= NUM_CHANNELS {
            return Err(ErrorCode::Invalid);
        }
        let mode = self.registers.csc[channel];
        self.registers.csc[channel] = mode & !CSC_MSB;
        Ok(())
    }

    /// `after` is what serving the timer's interrupt makes of `self`.
    pub open spec fn handled(self, after: Pwm) -> bool {
        after.registers == (FtmRegisters {
            status: FtmRegisters::served(self.registers.status),
            ..self.registers
        })
    }

    /// Serves the timer's interrupt: goes through the event flags of the
    /// eight channels and clears channel 0's flag for each one that is set.
    pub fn handle_interrupt(&mut self)
        ensures
            old(self).handled(*final(self)),
    {
        let status = self.registers.status;
        let mut channel: u32 = 0;
        while channel < 8
            invariant
                channel <= 8,
                status == old(self).registers.status,
                self.registers == (FtmRegisters {
                    status: self.registers.status,
                    ..old(self).registers
                }),
                (exists|c: u32| c < channel && status & (1u32 << c) != 0) ==> self.registers.status
                    == status & !STATUS_CH0F,
                (forall|c: u32| c < channel ==> status & (1u32 << c) == 0)
                    ==> self.registers.status == status,
            decreases 8 - channel,
        {
            proof {
                lemma_event_flags(status, channel);
                lemma_event_flags(self.registers.status, channel);
            }
            if (status & (1u32 << channel)) != 0 {
                self.registers.status = self.registers.status & !STATUS_CH0F;
            }
            channel = channel + 1;
        }
        proof {
            lemma_event_flags(status, 0);
            if status & STATUS_FLAGS != 0 {
                assert(exists|c: u32| c < 8 && status & (1u32 << c) != 0) by {
                    if status & 0x01 != 0 {
                        assert(status & (1u32 << 0u32) != 0);
                    } else if status & 0x02 != 0 {
                        assert(status & (1u32 << 1u32) != 0);
                    } else if status & 0x04 != 0 {
                        assert(status & (1u32 << 2u32) != 0);
                    } else if status & 0x08 != 0 {
                        assert(status & (1u32 << 3u32) != 0);
                    } else if status & 0x10 != 0 {
                        assert(status & (1u32 << 4u32) != 0);
                    } else if status & 0x20 != 0 {
                        assert(status & (1u32 << 5u32) != 0);
                    } else if status & 0x40 != 0 {
                        assert(status & (1u32 << 6u32) != 0);
                    } else {
                        assert(status & (1u32 << 7u32) != 0);
                    }
                }
            } else {
                assert forall|c: u32| c < 8 implies status & (1u32 << c) == 0 by {
                    lemma_event_flags(status, c);
                }
            }
        }
    }

    /// The highest frequency that the modulator puts out, in hertz.
    pub fn get_maximum_frequency_hz(&self) -> (frequency: usize)
        ensures
            frequency == 5333333,
    {
        5333333
    }

    /// The duty cycle that stands for "always high".
    pub fn get_maximum_duty_cycle(&self) -> (duty_cycle: usize)
        ensures
            duty_cycle == 100,
    {
        100
    }
}

} // verus!
