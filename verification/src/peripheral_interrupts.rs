//! Interrupt numbers of the peripherals.

use vstd::prelude::*;

verus! {

pub const PORTA: u32 = 59;

pub const PORTB: u32 = 60;

pub const PORTC: u32 = 61;

pub const PORTD: u32 = 62;

pub const PORTE: u32 = 63;

pub const LPUART0: u32 = 31;

pub const RTC: u32 = 46;

pub const FTM0: u32 = 99;

/// Low power periodic timer, channel 0.
pub const TIMER0: u32 = 48;

/// Low power periodic timer, channel 1.
pub const TIMER1: u32 = 49;

/// Low power periodic timer, channel 2.
pub const TIMER2: u32 = 50;

/// Power management controller.
pub const POWER_CLOCK: u32 = 20;

/// Flash controller, command complete.
pub const FTFC: u32 = 18;

} // verus!
