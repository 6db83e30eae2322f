//! Clock control: the system clock generator (SCG) and the peripheral
//! clock gates (PCC).

use vstd::prelude::*;

verus! {

/// CSR and RCCR bits 27:24: the system clock source.
pub const SCS_MASK: u32 = 0x0F000000;

/// Position of the system clock source field.
pub const SCS_SHIFT: u32 = 24;

/// Bit 0 of an oscillator's control register: enable.
pub const CSR_ENABLE: u32 = 0x00000001;

/// Bit 24 of an oscillator's control register: the clock is valid.
pub const CSR_VALID: u32 = 0x01000000;

/// Position of the valid bit.
pub const CSR_VALID_SHIFT: u32 = 24;

/// Bit 30 of a PCC register: clock gate control.
pub const PCC_CGC: u32 = 0x40000000;

/// The registers of the system clock generator.
#[derive(Clone, Copy, Debug, PartialEq, Eq, Structural)]
pub struct ScgRegisters {
    pub csr: u32,
    pub rccr: u32,
    pub vccr: u32,
    pub hccr: u32,
    pub clkoutcnfg: u32,
    pub sosccsr: u32,
    pub soscdiv: u32,
    pub sosccfg: u32,
    pub sirccsr: u32,
    pub sircdiv: u32,
    pub sirccfg: u32,
    pub firccsr: u32,
    pub fircdiv: u32,
    pub firccfg: u32,
    pub spllcsr: u32,
    pub splldiv: u32,
    pub spllcfg: u32,
}

/// The clock gate registers of the peripherals.
#[derive(Clone, Copy, Debug, PartialEq, Eq, Structural)]
pub struct PccRegisters {
    pub ftfc: u32,
    pub dmamux: u32,
    pub can0: u32,
    pub lpit: u32,
    pub lptmr0: u32,
    pub porta: u32,
    pub portb: u32,
    pub portc: u32,
    pub portd: u32,
    pub porte: u32,
    pub lpuart0: u32,
    pub ftm0: u32,
}

/// Receives clock events.
pub trait ClockClient {
    fn event(&self);
}

/// The sources that can drive the system clock.
#[derive(Clone, Copy, Debug, PartialEq, Eq, Structural)]
pub enum SystemClockSource {
    /// SOSC_CLK, source code 1.
    SystemOscillator,
    /// SIRC_CLK, source code 2.
    SlowIRC,
    /// FIRC_CLK, source code 3.
    FastIRC,
    /// SPLL_CLK, source code 6.
    SystemPLL,
}

/// The peripherals whose clock gate the driver controls.
#[derive(Clone, Copy, Debug, PartialEq, Eq, Structural)]
pub enum Peripheral {
    LPUART0,
    FTM0,
    LPIT,
    LPTMR0,
    PORTA,
    PORTB,
    PORTC,
    PORTD,
    PORTE,
}

impl SystemClockSource {
    /// The value of the clock source field that selects this source.
    pub open spec fn code(self) -> u32 {
        match self {
            SystemClockSource::SystemOscillator => 1,
            SystemClockSource::SlowIRC => 2,
            SystemClockSource::FastIRC => 3,
            SystemClockSource::SystemPLL => 6,
        }
    }

    /// The source that a value of the clock source field stands for; the
    /// slow internal clock for a value that names none.
    pub open spec fn of_code(code: u32) -> SystemClockSource {
        if code == 1 {
            SystemClockSource::SystemOscillator
        } else if code == 3 {
            SystemClockSource::FastIRC
        } else if code == 6 {
            SystemClockSource::SystemPLL
        } else {
            SystemClockSource::SlowIRC
        }
    }
}

impl ScgRegisters {
    /// Every register reads zero.
    pub open spec fn zeroed(self) -> bool {
        &&& self.csr == 0
        &&& self.rccr == 0
        &&& self.vccr == 0
        &&& self.hccr == 0
        &&& self.clkoutcnfg == 0
        &&& self.sosccsr == 0
        &&& self.soscdiv == 0
        &&& self.sosccfg == 0
        &&& self.sirccsr == 0
        &&& self.sircdiv == 0
        &&& self.sirccfg == 0
        &&& self.firccsr == 0
        &&& self.fircdiv == 0
        &&& self.firccfg == 0
        &&& self.spllcsr == 0
        &&& self.splldiv == 0
        &&& self.spllcfg == 0
    }
}

impl PccRegisters {
    /// Every register reads zero.
    pub open spec fn zeroed(self) -> bool {
        &&& self.ftfc == 0
        &&& self.dmamux == 0
        &&& self.can0 == 0
        &&& self.lpit == 0
        &&& self.lptmr0 == 0
        &&& self.porta == 0
        &&& self.portb == 0
        &&& self.portc == 0
        &&& self.portd == 0
        &&& self.porte == 0
        &&& self.lpuart0 == 0
        &&& self.ftm0 == 0
    }

    /// The clock gate register of `peripheral`.
    pub open spec fn gate(self, peripheral: Peripheral) -> u32 {
        match peripheral {
            Peripheral::LPUART0 => self.lpuart0,
            Peripheral::FTM0 => self.ftm0,
            Peripheral::LPIT => self.lpit,
            Peripheral::LPTMR0 => self.lptmr0,
            Peripheral::PORTA => self.porta,
            Peripheral::PORTB => self.portb,
            Peripheral::PORTC => self.portc,
            Peripheral::PORTD => self.portd,
            Peripheral::PORTE => self.porte,
        }
    }

    /// The registers with `value` in the clock gate register of
    /// `peripheral`.
    pub open spec fn with_gate(self, peripheral: Peripheral, value: u32) -> PccRegisters {
        match peripheral {
            Peripheral::LPUART0 => PccRegisters { lpuart0: value, ..self },
            Peripheral::FTM0 => PccRegisters { ftm0: value, ..self },
            Peripheral::LPIT => PccRegisters { lpit: value, ..self },
            Peripheral::LPTMR0 => PccRegisters { lptmr0: value, ..self },
            Peripheral::PORTA => PccRegisters { porta: value, ..self },
            Peripheral::PORTB => PccRegisters { portb: value, ..self },
            Peripheral::PORTC => PccRegisters { portc: value, ..self },
            Peripheral::PORTD => PccRegisters { portd: value, ..self },
            Peripheral::PORTE => PccRegisters { porte: value, ..self },
        }
    }
}

/// The clock driver, over the SCG and PCC register blocks.
pub struct Clock {
    pub scg_registers: ScgRegisters,
    pub pcc_registers: PccRegisters,
}

impl Clock {
    /// A driver over register blocks that read all zero.
    pub fn new() -> (clock: Self)
        ensures
            clock.scg_registers.zeroed(),
            clock.pcc_registers.zeroed(),
    {
        Clock {
            scg_registers: ScgRegisters {
                csr: 0,
                rccr: 0,
                vccr: 0,
                hccr: 0,
                clkoutcnfg: 0,
                sosccsr: 0,
                soscdiv: 0,
                sosccfg: 0,
                sirccsr: 0,
                sircdiv: 0,
                sirccfg: 0,
                firccsr: 0,
                fircdiv: 0,
                firccfg: 0,
                spllcsr: 0,
                splldiv: 0,
                spllcfg: 0,
            },
            pcc_registers: PccRegisters {
                ftfc: 0,
                dmamux: 0,
                can0: 0,
                lpit: 0,
                lptmr0: 0,
                porta: 0,
                portb: 0,
                portc: 0,
                portd: 0,
                porte: 0,
                lpuart0: 0,
                ftm0: 0,
            },
        }
    }

    /// Stops the low-frequency clock, which is the slow internal clock.
    pub fn low_stop(&mut self)
        ensures
            final(self).scg_registers == (ScgRegisters {
                sirccsr: old(self).scg_registers.sirccsr & !CSR_ENABLE,
                ..old(self).scg_registers
            }),
            final(self).pcc_registers == old(self).pcc_registers,
    {
        self.stop_slow_irc();
    }

    /// Starts the low-frequency clock, which is the slow internal clock.
    pub fn low_start(&mut self)
        ensures
            final(self).scg_registers == (ScgRegisters {
                sirccsr: old(self).scg_registers.sirccsr | CSR_ENABLE,
                ..old(self).scg_registers
            }),
            final(self).pcc_registers == old(self).pcc_registers,
    {
        self.start_slow_irc();
    }

    /// Tells whether the low-frequency clock is valid.
    pub fn low_started(&self) -> (started: bool)
        ensures
            started == ((self.scg_registers.sirccsr & CSR_VALID) >> CSR_VALID_SHIFT == 1),
    {
        self.is_slow_irc_running()
    }

    /// Stops the high-frequency clock, which is the fast internal clock.
    pub fn high_stop(&mut self)
        ensures
            final(self).scg_registers == (ScgRegisters {
                firccsr: old(self).scg_registers.firccsr & !CSR_ENABLE,
                ..old(self).scg_registers
            }),
            final(self).pcc_registers == old(self).pcc_registers,
    {
        self.stop_fast_irc();
    }

    /// Starts the high-frequency clock, which is the fast internal clock.
    pub fn high_start(&mut self)
        ensures
            final(self).scg_registers == (ScgRegisters {
                firccsr: old(self).scg_registers.firccsr | CSR_ENABLE,
                ..old(self).scg_registers
            }),
            final(self).pcc_registers == old(self).pcc_registers,
    {
        self.start_fast_irc();
    }

    /// Tells whether the high-frequency clock is valid.
    pub fn high_started(&self) -> (started: bool)
        ensures
            started == ((self.scg_registers.firccsr & CSR_VALID) >> CSR_VALID_SHIFT == 1),
    {
        self.is_fast_irc_running()
    }

    /// Opens the clock gate of `peripheral`; the other gates stay as they
    /// are.
    pub fn enable_peripheral_clock(&mut self, peripheral: Peripheral)
        ensures
            final(self).pcc_registers == old(self).pcc_registers.with_gate(
                peripheral,
                old(self).pcc_registers.gate(peripheral) | PCC_CGC,
            ),
            final(self).scg_registers == old(self).scg_registers,
    {
        match peripheral {
            Peripheral::LPUART0 => {
                self.pcc_registers.lpuart0 = self.pcc_registers.lpuart0 | PCC_CGC;
            },
            Peripheral::FTM0 => {
                self.pcc_registers.ftm0 = self.pcc_registers.ftm0 | PCC_CGC;
            },
            Peripheral::LPIT => {
                self.pcc_registers.lpit = self.pcc_registers.lpit | PCC_CGC;
            },
            Peripheral::LPTMR0 => {
                self.pcc_registers.lptmr0 = self.pcc_registers.lptmr0 | PCC_CGC;
            },
            Peripheral::PORTA => {
                self.pcc_registers.porta = self.pcc_registers.porta | PCC_CGC;
            },
            Peripheral::PORTB => {
                self.pcc_registers.portb = self.pcc_registers.portb | PCC_CGC;
            },
            Peripheral::PORTC => {
                self.pcc_registers.portc = self.pcc_registers.portc | PCC_CGC;
            },
            Peripheral::PORTD => {
                self.pcc_registers.portd = self.pcc_registers.portd | PCC_CGC;
            },
            Peripheral::PORTE => {
                self.pcc_registers.porte = self.pcc_registers.porte | PCC_CGC;
            },
        }
    }

    /// Closes the clock gate of `peripheral`; the other gates stay as they
    /// are.
    pub fn disable_peripheral_clock(&mut self, peripheral: Peripheral)
        ensures
            final(self).pcc_registers == old(self).pcc_registers.with_gate(
                peripheral,
                old(self).pcc_registers.gate(peripheral) & !PCC_CGC,
            ),
            final(self).scg_registers == old(self).scg_registers,
    {
        match peripheral {
            Peripheral::LPUART0 => {
                self.pcc_registers.lpuart0 = self.pcc_registers.lpuart0 & !PCC_CGC;
            },
            Peripheral::FTM0 => {
                self.pcc_registers.ftm0 = self.pcc_registers.ftm0 & !PCC_CGC;
            },
            Peripheral::LPIT => {
                self.pcc_registers.lpit = self.pcc_registers.lpit & !PCC_CGC;
            },
            Peripheral::LPTMR0 => {
                self.pcc_registers.lptmr0 = self.pcc_registers.lptmr0 & !PCC_CGC;
            },
            Peripheral::PORTA => {
                self.pcc_registers.porta = self.pcc_registers.porta & !PCC_CGC;
            },
            Peripheral::PORTB => {
                self.pcc_registers.portb = self.pcc_registers.portb & !PCC_CGC;
            },
            Peripheral::PORTC => {
                self.pcc_registers.portc = self.pcc_registers.portc & !PCC_CGC;
            },
            Peripheral::PORTD => {
                self.pcc_registers.portd = self.pcc_registers.portd & !PCC_CGC;
            },
            Peripheral::PORTE => {
                self.pcc_registers.porte = self.pcc_registers.porte & !PCC_CGC;
            },
        }
    }

    /// Asks for `clock_source` as the system clock: writes its code to the
    /// clock source field of the run clock control register.
    pub fn set_system_clock(&mut self, clock_source: SystemClockSource)
        ensures
            final(self).scg_registers == (ScgRegisters {
                rccr: (old(self).scg_registers.rccr & !SCS_MASK) | ((clock_source.code()
                    << SCS_SHIFT) & SCS_MASK),
                ..old(self).scg_registers
            }),
            final(self).pcc_registers == old(self).pcc_registers,
            (final(self).scg_registers.rccr & SCS_MASK) >> SCS_SHIFT == clock_source.code(),
    {
        let code: u32 = match clock_source {
            SystemClockSource::SystemOscillator => 1,
            SystemClockSource::SlowIRC => 2,
            SystemClockSource::FastIRC => 3,
            SystemClockSource::SystemPLL => 6,
        };
        let rccr = self.scg_registers.rccr;
        assert(code < 16 ==> (((rccr & !SCS_MASK) | ((code << SCS_SHIFT) & SCS_MASK)) & SCS_MASK)
            >> SCS_SHIFT == code) by (bit_vector);
        self.scg_registers.rccr = (rccr & !SCS_MASK) | ((code << SCS_SHIFT) & SCS_MASK);
    }

    /// The system clock source that the clock status register reports.
    pub fn get_system_clock(&self) -> (source: SystemClockSource)
        ensures
            source == SystemClockSource::of_code(
                (self.scg_registers.csr & SCS_MASK) >> SCS_SHIFT,
            ),
    {
        let code = (self.scg_registers.csr & SCS_MASK) >> SCS_SHIFT;
        if code == 1 {
            SystemClockSource::SystemOscillator
        } else if code == 3 {
            SystemClockSource::FastIRC
        } else if code == 6 {
            SystemClockSource::SystemPLL
        } else {
            SystemClockSource::SlowIRC
        }
    }

    /// Enables the system oscillator.
    pub fn start_system_oscillator(&mut self)
        ensures
            final(self).scg_registers == (ScgRegisters {
                sosccsr: old(self).scg_registers.sosccsr | CSR_ENABLE,
                ..old(self).scg_registers
            }),
            final(self).pcc_registers == old(self).pcc_registers,
    {
        self.scg_registers.sosccsr = self.scg_registers.sosccsr | CSR_ENABLE;
    }

    /// Tells whether the system oscillator reports a valid clock.
    pub fn is_system_oscillator_running(&self) -> (running: bool)
        ensures
            running == ((self.scg_registers.sosccsr & CSR_VALID) >> CSR_VALID_SHIFT == 1),
    {
        (self.scg_registers.sosccsr & CSR_VALID) >> CSR_VALID_SHIFT == 1
    }

    /// Disables the system oscillator.
    pub fn stop_system_oscillator(&mut self)
        ensures
            final(self).scg_registers == (ScgRegisters {
                sosccsr: old(self).scg_registers.sosccsr & !CSR_ENABLE,
                ..old(self).scg_registers
            }),
            final(self).pcc_registers == old(self).pcc_registers,
    {
        self.scg_registers.sosccsr = self.scg_registers.sosccsr & !CSR_ENABLE;
    }

    /// Enables the slow internal reference clock.
    pub fn start_slow_irc(&mut self)
        ensures
            final(self).scg_registers == (ScgRegisters {
                sirccsr: old(self).scg_registers.sirccsr | CSR_ENABLE,
                ..old(self).scg_registers
            }),
            final(self).pcc_registers == old(self).pcc_registers,
    {
        self.scg_registers.sirccsr = self.scg_registers.sirccsr | CSR_ENABLE;
    }

    /// Tells whether the slow internal reference clock reports a valid clock.
    pub fn is_slow_irc_running(&self) -> (running: bool)
        ensures
            running == ((self.scg_registers.sirccsr & CSR_VALID) >> CSR_VALID_SHIFT == 1),
    {
        (self.scg_registers.sirccsr & CSR_VALID) >> CSR_VALID_SHIFT == 1
    }

    /// Disables the slow internal reference clock.
    pub fn stop_slow_irc(&mut self)
        ensures
            final(self).scg_registers == (ScgRegisters {
                sirccsr: old(self).scg_registers.sirccsr & !CSR_ENABLE,
                ..old(self).scg_registers
            }),
            final(self).pcc_registers == old(self).pcc_registers,
    {
        self.scg_registers.sirccsr = self.scg_registers.sirccsr & !CSR_ENABLE;
    }

    /// Enables the fast internal reference clock.
    pub fn start_fast_irc(&mut self)
        ensures
            final(self).scg_registers == (ScgRegisters {
                firccsr: old(self).scg_registers.firccsr | CSR_ENABLE,
                ..old(self).scg_registers
            }),
            final(self).pcc_registers == old(self).pcc_registers,
    {
        self.scg_registers.firccsr = self.scg_registers.firccsr | CSR_ENABLE;
    }

    /// Tells whether the fast internal reference clock reports a valid clock.
    pub fn is_fast_irc_running(&self) -> (running: bool)
        ensures
            running == ((self.scg_registers.firccsr & CSR_VALID) >> CSR_VALID_SHIFT == 1),
    {
        (self.scg_registers.firccsr & CSR_VALID) >> CSR_VALID_SHIFT == 1
    }

    /// Disables the fast internal reference clock.
    pub fn stop_fast_irc(&mut self)
        ensures
            final(self).scg_registers == (ScgRegisters {
                firccsr: old(self).scg_registers.firccsr & !CSR_ENABLE,
                ..old(self).scg_registers
            }),
            final(self).pcc_registers == old(self).pcc_registers,
    {
        self.scg_registers.firccsr = self.scg_registers.firccsr & !CSR_ENABLE;
    }

    /// Enables the system PLL.
    pub fn start_system_pll(&mut self)
        ensures
            final(self).scg_registers == (ScgRegisters {
                spllcsr: old(self).scg_registers.spllcsr | CSR_ENABLE,
                ..old(self).scg_registers
            }),
            final(self).pcc_registers == old(self).pcc_registers,
    {
        self.scg_registers.spllcsr = self.scg_registers.spllcsr | CSR_ENABLE;
    }

    /// Tells whether the system PLL reports a valid clock.
    pub fn is_system_pll_running(&self) -> (running: bool)
        ensures
            running == ((self.scg_registers.spllcsr & CSR_VALID) >> CSR_VALID_SHIFT == 1),
    {
        (self.scg_registers.spllcsr & CSR_VALID) >> CSR_VALID_SHIFT == 1
    }

    /// Disables the system PLL.
    pub fn stop_system_pll(&mut self)
        ensures
            final(self).scg_registers == (ScgRegisters {
                spllcsr: old(self).scg_registers.spllcsr & !CSR_ENABLE,
                ..old(self).scg_registers
            }),
            final(self).pcc_registers == old(self).pcc_registers,
    {
        self.scg_registers.spllcsr = self.scg_registers.spllcsr & !CSR_ENABLE;
    }
}

} // verus!
