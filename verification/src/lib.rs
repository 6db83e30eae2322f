//! Peripheral drivers for the S32K144 microcontroller, written against owned
//! models of the register blocks so that every driver decision is stated and
//! proved.

pub mod chip;
pub mod clock;
pub mod deferred_call;
pub mod error;
pub mod ftfc_model;
pub mod ftm0;
pub mod gpio;
pub mod interrupt_service;
pub mod lpit0;
pub mod lptmr0;
pub mod lpuart0;
pub mod nvmc;
pub mod peripheral_interrupts;
pub mod pinmux;
pub mod power;
pub mod rgb_led;
pub mod rtc;
pub mod time;
