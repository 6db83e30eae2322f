//! The board's red and blue LEDs on port D. The LEDs are wired active low:
//! a pin driven low lights its LED.

use vstd::prelude::*;
use crate::gpio::GpioRegisters;
use crate::pinmux::{PortRegisters, PCR_MUX};

verus! {

/// PCR function field set to alternative 1, plain GPIO.
pub const PCR_MUX_GPIO: u32 = 0x100;

/// The red LED's pin on port D.
pub const RED_PIN: u32 = 15;

/// The blue LED's pin on port D.
pub const BLUE_PIN: u32 = 0;

/// The two LEDs, over the GPIO registers and the pin control registers of
/// port D.
pub struct RgbLed {
    pub ptd: GpioRegisters,
    pub portd: PortRegisters,
}

/// A pin control register with its function set to plain GPIO.
pub open spec fn as_gpio(pcr: u32) -> u32 {
    (pcr & !PCR_MUX) | PCR_MUX_GPIO
}

impl RgbLed {
    /// Takes the two pins for GPIO and makes them outputs; every other pin
    /// and register stays as it is.
    pub fn init(ptd: GpioRegisters, portd: PortRegisters) -> (led: Self)
        ensures
            led.ptd == (GpioRegisters {
                pddr: ptd.pddr | (1u32 << RED_PIN) | (1u32 << BLUE_PIN),
                ..ptd
            }),
            led.portd.pcr@ == portd.pcr@.update(
                BLUE_PIN as int,
                as_gpio(portd.pcr[BLUE_PIN as int]),
            ).update(RED_PIN as int, as_gpio(portd.pcr[RED_PIN as int])),
    {
        let mut led = RgbLed { ptd, portd };
        let blue = led.portd.pcr[0];
        led.portd.pcr[0] = (blue & !PCR_MUX) | PCR_MUX_GPIO;
        let red = led.portd.pcr[15];
        led.portd.pcr[15] = (red & !PCR_MUX) | PCR_MUX_GPIO;
        led.ptd.pddr = led.ptd.pddr | (1u32 << RED_PIN) | (1u32 << BLUE_PIN);
        led
    }

    /// Lights the red LED (`state` true: the pin's bit goes to the
    /// clear-output register) or puts it out (the bit goes to the
    /// set-output register).
    pub fn set_red(&mut self, state: bool)
        ensures
            final(self).portd == old(self).portd,
            final(self).ptd == if state {
                GpioRegisters { pcor: 1u32 << RED_PIN, ..old(self).ptd }
            } else {
                GpioRegisters { psor: 1u32 << RED_PIN, ..old(self).ptd }
            },
    {
        if state {
            self.ptd.pcor = 1u32 << RED_PIN;
        } else {
            self.ptd.psor = 1u32 << RED_PIN;
        }
    }

    /// Lights the blue LED or puts it out, as `set_red` does for the red
    /// one.
    pub fn set_blue(&mut self, state: bool)
        ensures
            final(self).portd == old(self).portd,
            final(self).ptd == if state {
                GpioRegisters { pcor: 1u32 << BLUE_PIN, ..old(self).ptd }
            } else {
                GpioRegisters { psor: 1u32 << BLUE_PIN, ..old(self).ptd }
            },
    {
        if state {
            self.ptd.pcor = 1u32 << BLUE_PIN;
        } else {
            self.ptd.psor = 1u32 << BLUE_PIN;
        }
    }
}

} // verus!
