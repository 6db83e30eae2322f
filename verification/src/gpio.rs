//! General-purpose input and output pins.

use vstd::prelude::*;

verus! {

/// The registers of one GPIO port.
#[derive(Clone, Copy, Debug, PartialEq, Eq, Structural)]
pub struct GpioRegisters {
    /// Port data output register.
    pub pdor: u32,
    /// Port set output register.
    pub psor: u32,
    /// Port clear output register.
    pub pcor: u32,
    /// Port toggle output register.
    pub ptor: u32,
    /// Port data input register.
    pub pdir: u32,
    /// Port data direction register.
    pub pddr: u32,
    /// Port input disable register.
    pub pidr: u32,
}

/// The pins of the board, in the order of their numbers.
#[derive(Clone, Copy, Debug, PartialEq, Eq, Structural)]
pub enum Pin {
    PTA0,
    PTA1,
    PTA2,
    PTA3,
    PTA4,
    PTA5,
    PTA6,
    PTA7,
    PTA8,
    PTA9,
    PTA10,
    PTA11,
    PTA12,
    PTA13,
    PTA14,
    PTA15,
    PTB0,
    PTB1,
    PTB2,
    PTB3,
    PTB4,
    PTB5,
    PTB6,
    PTB7,
    PTC0,
    PTC1,
    PTC2,
    PTC3,
    PTC4,
    PTC5,
    PTC6,
    PTC7,
    PTD0,
    PTD1,
    PTD2,
    PTD3,
    PTD4,
    PTD5,
    PTD6,
    PTD7,
    PTE0,
    PTE1,
    PTE2,
    PTE3,
    PTE4,
    PTE5,
    PTE6,
    PTE7,
}

/// How a pin's interrupt is triggered.
#[derive(Clone, Copy, Debug, PartialEq, Eq, Structural)]
pub enum InterruptEdge {
    RisingEdge,
    FallingEdge,
    EitherEdge,
}

/// What a pin is configured as.
#[derive(Clone, Copy, Debug, PartialEq, Eq, Structural)]
pub enum Configuration {
    LowPower,
    Input,
    Output,
}

/// How a pin floats.
#[derive(Clone, Copy, Debug, PartialEq, Eq, Structural)]
pub enum FloatingState {
    PullUp,
    PullDown,
    PullNone,
}

impl Pin {
    /// The pin's number: 0 for PTA0 up to 47 for PTE7.
    pub open spec fn number(self) -> u32 {
        match self {
            Pin::PTA0 => 0,
            Pin::PTA1 => 1,
            Pin::PTA2 => 2,
            Pin::PTA3 => 3,
            Pin::PTA4 => 4,
            Pin::PTA5 => 5,
            Pin::PTA6 => 6,
            Pin::PTA7 => 7,
            Pin::PTA8 => 8,
            Pin::PTA9 => 9,
            Pin::PTA10 => 10,
            Pin::PTA11 => 11,
            Pin::PTA12 => 12,
            Pin::PTA13 => 13,
            Pin::PTA14 => 14,
            Pin::PTA15 => 15,
            Pin::PTB0 => 16,
            Pin::PTB1 => 17,
            Pin::PTB2 => 18,
            Pin::PTB3 => 19,
            Pin::PTB4 => 20,
            Pin::PTB5 => 21,
            Pin::PTB6 => 22,
            Pin::PTB7 => 23,
            Pin::PTC0 => 24,
            Pin::PTC1 => 25,
            Pin::PTC2 => 26,
            Pin::PTC3 => 27,
            Pin::PTC4 => 28,
            Pin::PTC5 => 29,
            Pin::PTC6 => 30,
            Pin::PTC7 => 31,
            Pin::PTD0 => 32,
            Pin::PTD1 => 33,
            Pin::PTD2 => 34,
            Pin::PTD3 => 35,
            Pin::PTD4 => 36,
            Pin::PTD5 => 37,
            Pin::PTD6 => 38,
            Pin::PTD7 => 39,
            Pin::PTE0 => 40,
            Pin::PTE1 => 41,
            Pin::PTE2 => 42,
            Pin::PTE3 => 43,
            Pin::PTE4 => 44,
            Pin::PTE5 => 45,
            Pin::PTE6 => 46,
            Pin::PTE7 => 47,
        }
    }

    /// The bit that the driver uses for the pin in every register of its
    /// port: the pin's number, wrapped to the register's 32 bits.
    pub open spec fn mask(self) -> u32 {
        1u32 << (self.number() % 32)
    }

    /// Computes `number`.
    pub fn index(self) -> (number: u32)
        ensures
            number == self.number(),
            number < 48,
    {
        match self {
            Pin::PTA0 => 0,
            Pin::PTA1 => 1,
            Pin::PTA2 => 2,
            Pin::PTA3 => 3,
            Pin::PTA4 => 4,
            Pin::PTA5 => 5,
            Pin::PTA6 => 6,
            Pin::PTA7 => 7,
            Pin::PTA8 => 8,
            Pin::PTA9 => 9,
            Pin::PTA10 => 10,
            Pin::PTA11 => 11,
            Pin::PTA12 => 12,
            Pin::PTA13 => 13,
            Pin::PTA14 => 14,
            Pin::PTA15 => 15,
            Pin::PTB0 => 16,
            Pin::PTB1 => 17,
            Pin::PTB2 => 18,
            Pin::PTB3 => 19,
            Pin::PTB4 => 20,
            Pin::PTB5 => 21,
            Pin::PTB6 => 22,
            Pin::PTB7 => 23,
            Pin::PTC0 => 24,
            Pin::PTC1 => 25,
            Pin::PTC2 => 26,
            Pin::PTC3 => 27,
            Pin::PTC4 => 28,
            Pin::PTC5 => 29,
            Pin::PTC6 => 30,
            Pin::PTC7 => 31,
            Pin::PTD0 => 32,
            Pin::PTD1 => 33,
            Pin::PTD2 => 34,
            Pin::PTD3 => 35,
            Pin::PTD4 => 36,
            Pin::PTD5 => 37,
            Pin::PTD6 => 38,
            Pin::PTD7 => 39,
            Pin::PTE0 => 40,
            Pin::PTE1 => 41,
            Pin::PTE2 => 42,
            Pin::PTE3 => 43,
            Pin::PTE4 => 44,
            Pin::PTE5 => 45,
            Pin::PTE6 => 46,
            Pin::PTE7 => 47,
        }
    }

    /// Computes `mask`.
    pub fn bit(self) -> (mask: u32)
        ensures
            mask == self.mask(),
    {
        1u32 << (self.index() % 32)
    }
}

impl GpioRegisters {
    /// Every register reads zero.
    pub open spec fn zeroed(self) -> bool {
        &&& self.pdor == 0
        &&& self.psor == 0
        &&& self.pcor == 0
        &&& self.ptor == 0
        &&& self.pdir == 0
        &&& self.pddr == 0
        &&& self.pidr == 0
    }
}

/// One pin, with the registers of its port.
pub struct GPIOPin {
    pub pin: Pin,
    pub registers: GpioRegisters,
}

impl GPIOPin {
    /// The driver of pin `pin` over the port registers `base`.
    pub fn new(pin: Pin, base: GpioRegisters) -> (gpio: GPIOPin)
        ensures
            gpio.pin == pin,
            gpio.registers == base,
    {
        GPIOPin { pin, registers: base }
    }

    /// Makes the pin an output: sets its bit in the direction register.
    pub fn enable_output(&mut self)
        ensures
            final(self).pin == old(self).pin,
            final(self).registers == (GpioRegisters {
                pddr: old(self).registers.pddr | old(self).pin.mask(),
                ..old(self).registers
            }),
    {
        self.registers.pddr = self.registers.pddr | self.pin.bit();
    }

    /// Makes the pin an input: clears its bit in the direction register.
    pub fn enable_input(&mut self)
        ensures
            final(self).pin == old(self).pin,
            final(self).registers == (GpioRegisters {
                pddr: old(self).registers.pddr & !old(self).pin.mask(),
                ..old(self).registers
            }),
    {
        self.registers.pddr = self.registers.pddr & !self.pin.bit();
    }

    /// Drives the pin high: writes its bit to the set-output register.
    pub fn set_high(&mut self)
        ensures
            final(self).pin == old(self).pin,
            final(self).registers == (GpioRegisters {
                psor: old(self).pin.mask(),
                ..old(self).registers
            }),
    {
        self.registers.psor = self.pin.bit();
    }

    /// Drives the pin low: writes its bit to the clear-output register.
    pub fn set_low(&mut self)
        ensures
            final(self).pin == old(self).pin,
            final(self).registers == (GpioRegisters {
                pcor: old(self).pin.mask(),
                ..old(self).registers
            }),
    {
        self.registers.pcor = self.pin.bit();
    }

    /// Toggles the pin: writes its bit to the toggle-output register.
    pub fn toggle(&mut self)
        ensures
            final(self).pin == old(self).pin,
            final(self).registers == (GpioRegisters {
                ptor: old(self).pin.mask(),
                ..old(self).registers
            }),
    {
        self.registers.ptor = self.pin.bit();
    }

    /// Toggles the pin as `toggle` does and returns the level that the data
    /// input register then shows for it.
    pub fn toggle_and_read(&mut self) -> (high: bool)
        ensures
            final(self).pin == old(self).pin,
            final(self).registers == (GpioRegisters {
                ptor: old(self).pin.mask(),
                ..old(self).registers
            }),
            high == (old(self).registers.pdir & old(self).pin.mask() != 0),
    {
        self.registers.ptor = self.pin.bit();
        self.read()
    }

    /// The pin's level: its bit in the data input register.
    pub fn read(&self) -> (high: bool)
        ensures
            high == (self.registers.pdir & self.pin.mask() != 0),
    {
        self.registers.pdir & self.pin.bit() != 0
    }

    /// Sets up the pin's interrupt for `mode`: the direction register is
    /// left with the pin's bit alone for a rising or either edge, and with
    /// nothing for a falling edge.
    pub fn enable_interrupts(&mut self, mode: InterruptEdge)
        ensures
            final(self).pin == old(self).pin,
            final(self).registers == (GpioRegisters {
                pddr: if mode == InterruptEdge::FallingEdge {
                    0
                } else {
                    old(self).pin.mask()
                },
                ..old(self).registers
            }),
    {
        match mode {
            InterruptEdge::RisingEdge => {
                self.registers.pddr = self.pin.bit();
            },
            InterruptEdge::FallingEdge => {
                self.registers.pddr = 0;
            },
            InterruptEdge::EitherEdge => {
                self.registers.pddr = self.pin.bit();
            },
        }
    }

    /// Takes the pin's interrupt away: zeroes the direction register.
    pub fn disable_interrupts(&mut self)
        ensures
            final(self).pin == old(self).pin,
            final(self).registers == (GpioRegisters { pddr: 0, ..old(self).registers }),
    {
        self.registers.pddr = 0;
    }

    /// Tells whether the pin's interrupt is pending: its bit in the data
    /// input register.
    pub fn is_pending(&self) -> (pending: bool)
        ensures
            pending == (self.registers.pdir & self.pin.mask() != 0),
    {
        self.registers.pdir & self.pin.bit() != 0
    }

    /// What the pin is configured as: an input if it reads high, else an
    /// output.
    pub fn configuration(&self) -> (configuration: Configuration)
        ensures
            configuration == if self.registers.pdir & self.pin.mask() != 0 {
                Configuration::Input
            } else {
                Configuration::Output
            },
    {
        if self.read() {
            Configuration::Input
        } else {
            Configuration::Output
        }
    }

    /// Makes the pin an input and says so.
    pub fn make_input(&mut self) -> (configuration: Configuration)
        ensures
            configuration == Configuration::Input,
            final(self).pin == old(self).pin,
            final(self).registers == (GpioRegisters {
                pddr: old(self).registers.pddr & !old(self).pin.mask(),
                ..old(self).registers
            }),
    {
        self.enable_input();
        Configuration::Input
    }

    /// Makes the pin an output and says so.
    pub fn make_output(&mut self) -> (configuration: Configuration)
        ensures
            configuration == Configuration::Output,
            final(self).pin == old(self).pin,
            final(self).registers == (GpioRegisters {
                pddr: old(self).registers.pddr | old(self).pin.mask(),
                ..old(self).registers
            }),
    {
        self.enable_output();
        Configuration::Output
    }

    /// Stops using the pin as an input: clears its bit in the direction
    /// register.
    pub fn disable_input(&mut self) -> (configuration: Configuration)
        ensures
            configuration == Configuration::LowPower,
            final(self).pin == old(self).pin,
            final(self).registers == (GpioRegisters {
                pddr: old(self).registers.pddr & !old(self).pin.mask(),
                ..old(self).registers
            }),
    {
        self.registers.pddr = self.registers.pddr & !self.pin.bit();
        Configuration::LowPower
    }

    /// Stops using the pin as an output: clears its bit in the direction
    /// register.
    pub fn disable_output(&mut self) -> (configuration: Configuration)
        ensures
            configuration == Configuration::LowPower,
            final(self).pin == old(self).pin,
            final(self).registers == (GpioRegisters {
                pddr: old(self).registers.pddr & !old(self).pin.mask(),
                ..old(self).registers
            }),
    {
        self.registers.pddr = self.registers.pddr & !self.pin.bit();
        Configuration::LowPower
    }

    /// The pin has no pull resistor.
    pub fn floating_state(&self) -> (state: FloatingState)
        ensures
            state == FloatingState::PullNone,
    {
        FloatingState::PullNone
    }
}

/// A set of pins.
pub struct Port<const N: usize> {
    pub pins: [GPIOPin; N],
}

impl<const N: usize> Port<N> {
    /// The port that holds `pins`.
    pub fn new(pins: [GPIOPin; N]) -> (port: Self)
        ensures
            port.pins == pins,
    {
        Port { pins }
    }
}

/// All 48 pins of the chip, each at the place of its number and over a
/// register block that reads all zero.
pub fn s32k144_gpio_create() -> (port: Port<48>)
    ensures
        forall|i: int|
            0 <= i < 48 ==> (#[trigger] port.pins@[i]).pin.number() == i
                && port.pins@[i].registers.zeroed(),
{
    let base = GpioRegisters { pdor: 0, psor: 0, pcor: 0, ptor: 0, pdir: 0, pddr: 0, pidr: 0 };
    let port = Port::new(
        [
            GPIOPin::new(Pin::PTA0, base),
            GPIOPin::new(Pin::PTA1, base),
            GPIOPin::new(Pin::PTA2, base),
            GPIOPin::new(Pin::PTA3, base),
            GPIOPin::new(Pin::PTA4, base),
            GPIOPin::new(Pin::PTA5, base),
            GPIOPin::new(Pin::PTA6, base),
            GPIOPin::new(Pin::PTA7, base),
            GPIOPin::new(Pin::PTA8, base),
            GPIOPin::new(Pin::PTA9, base),
            GPIOPin::new(Pin::PTA10, base),
            GPIOPin::new(Pin::PTA11, base),
            GPIOPin::new(Pin::PTA12, base),
            GPIOPin::new(Pin::PTA13, base),
            GPIOPin::new(Pin::PTA14, base),
            GPIOPin::new(Pin::PTA15, base),
            GPIOPin::new(Pin::PTB0, base),
            GPIOPin::new(Pin::PTB1, base),
            GPIOPin::new(Pin::PTB2, base),
            GPIOPin::new(Pin::PTB3, base),
            GPIOPin::new(Pin::PTB4, base),
            GPIOPin::new(Pin::PTB5, base),
            GPIOPin::new(Pin::PTB6, base),
            GPIOPin::new(Pin::PTB7, base),
            GPIOPin::new(Pin::PTC0, base),
            GPIOPin::new(Pin::PTC1, base),
            GPIOPin::new(Pin::PTC2, base),
            GPIOPin::new(Pin::PTC3, base),
            GPIOPin::new(Pin::PTC4, base),
            GPIOPin::new(Pin::PTC5, base),
            GPIOPin::new(Pin::PTC6, base),
            GPIOPin::new(Pin::PTC7, base),
            GPIOPin::new(Pin::PTD0, base),
            GPIOPin::new(Pin::PTD1, base),
            GPIOPin::new(Pin::PTD2, base),
            GPIOPin::new(Pin::PTD3, base),
            GPIOPin::new(Pin::PTD4, base),
            GPIOPin::new(Pin::PTD5, base),
            GPIOPin::new(Pin::PTD6, base),
            GPIOPin::new(Pin::PTD7, base),
            GPIOPin::new(Pin::PTE0, base),
            GPIOPin::new(Pin::PTE1, base),
            GPIOPin::new(Pin::PTE2, base),
            GPIOPin::new(Pin::PTE3, base),
            GPIOPin::new(Pin::PTE4, base),
            GPIOPin::new(Pin::PTE5, base),
            GPIOPin::new(Pin::PTE6, base),
            GPIOPin::new(Pin::PTE7, base),
        ],
    );
    port
}

} // verus!
