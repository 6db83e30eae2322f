//! The interrupt router of the full chip: the peripherals' own router plus
//! the pulse-width modulator and the flash controller.

use vstd::prelude::*;
use crate::chip::{S32K144DefaultPeripherals, Serviced};
use crate::nvmc::FtfcView;
use crate::peripheral_interrupts::{FTFC, FTM0};

verus! {

/// The slot, if there is one, with its handler registered.
pub open spec fn slot_registered(
    slot: Option<crate::deferred_call::DeferredCall>,
) -> Option<crate::deferred_call::DeferredCall> {
    match slot {
        Some(call) => Some(call.with_handler()),
        None => None,
    }
}

/// Serves the interrupts of all peripheral drivers.
pub struct S32K144InterruptService {
    pub peripherals: S32K144DefaultPeripherals,
}

impl S32K144InterruptService {
    /// See `S32K144DefaultPeripherals::wf`.
    pub open spec fn wf(self) -> bool {
        self.peripherals.wf()
    }

    /// `after` and `serviced` are what serving interrupt `interrupt` makes
    /// of `self`: the modulator's and the flash controller's interrupts go
    /// to their handlers, every other number to the peripherals' router.
    pub open spec fn interrupt_served(
        self,
        interrupt: u32,
        after: S32K144InterruptService,
        serviced: Option<Serviced>,
    ) -> bool {
        if interrupt == FTM0 {
            &&& serviced == Some(Serviced::Pwm)
            &&& self.peripherals.pwm0.handled(after.peripherals.pwm0)
            &&& after.peripherals == (S32K144DefaultPeripherals {
                pwm0: after.peripherals.pwm0,
                ..self.peripherals
            })
        } else if interrupt == FTFC {
            &&& serviced matches Some(Serviced::Flash(completion))
            &&& crate::chip::completion_of(self.peripherals.nvmc@, completion)
            &&& after.peripherals.nvmc@ == self.peripherals.nvmc@.completed()
            &&& after.peripherals == (S32K144DefaultPeripherals {
                nvmc: after.peripherals.nvmc,
                ..self.peripherals
            })
        } else {
            self.peripherals.interrupt_served(interrupt, after.peripherals, serviced)
        }
    }

    /// The router over `peripherals`.
    pub fn new(peripherals: S32K144DefaultPeripherals) -> (service: Self)
        ensures
            service.peripherals == peripherals,
    {
        S32K144InterruptService { peripherals }
    }

    /// Ties the drivers to the dispatcher: registers the handlers of the
    /// flash controller and of each timer that has a slot.
    pub fn init(&mut self)
        requires
            old(self).wf(),
        ensures
            final(self).wf(),
            final(self).peripherals.nvmc@ == (FtfcView {
                deferred_call: old(self).peripherals.nvmc@.deferred_call.with_handler(),
                ..old(self).peripherals.nvmc@
            }),
            final(self).peripherals == (S32K144DefaultPeripherals {
                nvmc: final(self).peripherals.nvmc,
                timer0: crate::lpit0::TimerAlarm {
                    deferred_call: slot_registered(old(self).peripherals.timer0.deferred_call),
                    ..old(self).peripherals.timer0
                },
                timer1: crate::lptmr0::TimerAlarm {
                    deferred_call: slot_registered(old(self).peripherals.timer1.deferred_call),
                    ..old(self).peripherals.timer1
                },
                timer2: crate::lpit0::Lpit0Timer {
                    deferred_call: slot_registered(old(self).peripherals.timer2.deferred_call),
                    ..old(self).peripherals.timer2
                },
                ..old(self).peripherals
            }),
    {
        self.peripherals.nvmc.register();
        self.peripherals.timer0.register();
        self.peripherals.timer1.register();
        self.peripherals.timer2.register();
        self.peripherals.init();
    }

    /// Serves interrupt `interrupt` and returns what is owed to the
    /// clients, or `None` for an interrupt that no driver serves.
    pub fn service_interrupt(&mut self, interrupt: u32) -> (serviced: Option<Serviced>)
        requires
            old(self).wf(),
        ensures
            final(self).wf(),
            old(self).interrupt_served(interrupt, *final(self), serviced),
    {
        if interrupt == FTM0 {
            self.peripherals.pwm0.handle_interrupt();
            Some(Serviced::Pwm)
        } else if interrupt == FTFC {
            Some(Serviced::Flash(self.peripherals.nvmc.handle_interrupt()))
        } else {
            self.peripherals.service_interrupt(interrupt)
        }
    }
}

} // verus!
