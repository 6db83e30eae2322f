//! Power management: low-voltage detection (PMC) and run modes (SMC).

use vstd::prelude::*;

verus! {

/// LVDSC1 bit 7: a low-voltage detect event happened.
pub const LVDSC1_LVDF: u8 = 0x80;

/// LVDSC2 bit 7: a low-voltage warning event happened.
pub const LVDSC2_LVWF: u8 = 0x80;

/// PMCTRL bits 6:5: the run mode.
pub const PMCTRL_RUNM: u32 = 0x60;

/// PMCTRL run mode field set to very-low-power run.
pub const PMCTRL_RUNM_VLPR: u32 = 0x40;

/// PMSTAT bits 7:0: the current power mode.
pub const PMSTAT_PMSTAT: u32 = 0xFF;

/// The registers of the power management controller.
#[derive(Clone, Copy, Debug, PartialEq, Eq, Structural)]
pub struct PmcRegisters {
    pub lvdsc1: u8,
    pub lvdsc2: u8,
    pub regsc: u8,
    pub lpotrim: u8,
}

/// The registers of the system mode controller.
#[derive(Clone, Copy, Debug, PartialEq, Eq, Structural)]
pub struct SmcRegisters {
    pub verid: u32,
    pub param: u32,
    pub pmprot: u32,
    pub pmctrl: u32,
    pub stopctrl: u32,
    pub pmstat: u32,
}

impl PmcRegisters {
    /// Every register reads zero.
    pub open spec fn zeroed(self) -> bool {
        &&& self.lvdsc1 == 0
        &&& self.lvdsc2 == 0
        &&& self.regsc == 0
        &&& self.lpotrim == 0
    }
}

impl SmcRegisters {
    /// Every register reads zero.
    pub open spec fn zeroed(self) -> bool {
        &&& self.verid == 0
        &&& self.param == 0
        &&& self.pmprot == 0
        &&& self.pmctrl == 0
        &&& self.stopctrl == 0
        &&& self.pmstat == 0
    }
}

/// What the power driver tells its client.
#[derive(Clone, Copy, Debug, PartialEq, Eq, Structural)]
pub enum PowerEvent {
    LowVoltageDetected,
    LowVoltageWarning,
    EnteredLowPowerMode,
    ExitedLowPowerMode,
}

/// Receives the events of the power driver.
pub trait PowerClient {
    fn handle_power_event(&self, event: PowerEvent);
}

/// The events that one interrupt raised, in the order in which the client
/// is told of them.
#[derive(Clone, Copy, Debug, PartialEq, Eq, Structural)]
pub struct PowerInterrupt {
    /// `PowerEvent::LowVoltageDetected` is owed.
    pub low_voltage_detected: bool,
    /// `PowerEvent::LowVoltageWarning` is owed.
    pub low_voltage_warning: bool,
}

/// The power driver, over the PMC and SMC register blocks.
pub struct Power {
    pub pmc: PmcRegisters,
    pub smc: SmcRegisters,
}

impl Power {
    /// A driver over register blocks that read all zero.
    pub fn new() -> (power: Self)
        ensures
            power.pmc.zeroed(),
            power.smc.zeroed(),
    {
        Power {
            pmc: PmcRegisters { lvdsc1: 0, lvdsc2: 0, regsc: 0, lpotrim: 0 },
            smc: SmcRegisters { verid: 0, param: 0, pmprot: 0, pmctrl: 0, stopctrl: 0, pmstat: 0 },
        }
    }

    /// `after` and `events` are what serving the power interrupt makes of
    /// `self`: each of the two low-voltage flags that is set is cleared and
    /// reported; nothing else changes.
    pub open spec fn handled(self, after: Power, events: PowerInterrupt) -> bool {
        &&& events.low_voltage_detected == (self.pmc.lvdsc1 & LVDSC1_LVDF != 0)
        &&& events.low_voltage_warning == (self.pmc.lvdsc2 & LVDSC2_LVWF != 0)
        &&& after.pmc == (PmcRegisters {
            lvdsc1: self.pmc.lvdsc1 & !LVDSC1_LVDF,
            lvdsc2: self.pmc.lvdsc2 & !LVDSC2_LVWF,
            ..self.pmc
        })
        &&& after.smc == self.smc
    }

    /// Serves the power interrupt: each of the two low-voltage flags that is
    /// set is cleared and reported; nothing else changes.
    pub fn handle_interrupt(&mut self) -> (events: PowerInterrupt)
        ensures
            old(self).handled(*final(self), events),
            final(self).pmc.lvdsc1 & LVDSC1_LVDF == 0,
            final(self).pmc.lvdsc2 & LVDSC2_LVWF == 0,
    {
        let lvdsc1 = self.pmc.lvdsc1;
        let lvdsc2 = self.pmc.lvdsc2;
        proof {
            lemma_clear_flag(lvdsc1);
            lemma_clear_flag(lvdsc2);
        }
        let low_voltage_detected = lvdsc1 & LVDSC1_LVDF != 0;
        if low_voltage_detected {
            self.pmc.lvdsc1 = lvdsc1 & !LVDSC1_LVDF;
        }
        let low_voltage_warning = lvdsc2 & LVDSC2_LVWF != 0;
        if low_voltage_warning {
            self.pmc.lvdsc2 = lvdsc2 & !LVDSC2_LVWF;
        }
        PowerInterrupt { low_voltage_detected, low_voltage_warning }
    }

    /// Selects the very-low-power run mode and returns the event that the
    /// client is owed.
    pub fn enter_low_power_mode(&mut self) -> (event: PowerEvent)
        ensures
            event == PowerEvent::EnteredLowPowerMode,
            final(self).smc == (SmcRegisters {
                pmctrl: (old(self).smc.pmctrl & !PMCTRL_RUNM) | PMCTRL_RUNM_VLPR,
                ..old(self).smc
            }),
            final(self).pmc == old(self).pmc,
            final(self).smc.pmctrl & PMCTRL_RUNM == PMCTRL_RUNM_VLPR,
    {
        let pmctrl = self.smc.pmctrl;
        assert(((pmctrl & !PMCTRL_RUNM) | PMCTRL_RUNM_VLPR) & PMCTRL_RUNM == PMCTRL_RUNM_VLPR)
            by (bit_vector);
        self.smc.pmctrl = (pmctrl & !PMCTRL_RUNM) | PMCTRL_RUNM_VLPR;
        PowerEvent::EnteredLowPowerMode
    }

    /// The current power mode as the status register gives it.
    pub fn get_power_mode_status(&self) -> (status: u8)
        ensures
            status == self.smc.pmstat & PMSTAT_PMSTAT,
    {
        let pmstat = self.smc.pmstat;
        assert(pmstat & PMSTAT_PMSTAT <= 0xFF) by (bit_vector);
        (pmstat & PMSTAT_PMSTAT) as u8
    }
}

/// Clearing bit 7 of a byte clears it and leaves a byte that had it clear
/// as it was.
proof fn lemma_clear_flag(value: u8)
    by (bit_vector)
    ensures
        (value & !0x80u8) & 0x80u8 == 0,
        value & 0x80u8 == 0 ==> value & !0x80u8 == value,
{
}

} // verus!
