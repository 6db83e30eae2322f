//! The chip's peripherals as one value, and the two routers that sit above
//! them: interrupts by number, deferred calls by slot.

use vstd::prelude::*;
use crate::clock::Clock;
use crate::deferred_call::DeferredCall;
use crate::ftm0::Pwm;
use crate::gpio::{s32k144_gpio_create, Port};
use crate::lpit0::Lpit0Timer;
use crate::lpuart0::{Lpuart0, LpuartRegisters, UartInterrupt};
use crate::nvmc::{Completion, Ftfc, FtfcView};
use crate::peripheral_interrupts::{LPUART0, POWER_CLOCK, RTC, TIMER0, TIMER1, TIMER2};
use crate::power::{Power, PowerInterrupt};
use crate::rtc::{Rtc, RtcInterrupt};

verus! {

/// What serving an interrupt leaves for the clients.
#[derive(Debug, PartialEq, Eq)]
pub enum Serviced {
    /// The power driver's events.
    Power(PowerInterrupt),
    /// The real-time clock's callbacks.
    Rtc(RtcInterrupt),
    /// Timer 0 was served; its alarm is raised later, from its deferred
    /// call.
    Timer0,
    /// Timer 1 was served; its client's alarm callback is owed.
    Timer1,
    /// Timer 2 was served; its client's alarm callback is owed.
    Timer2,
    /// The UART's callbacks.
    Uart(UartInterrupt),
    /// The pulse-width modulator was served; it has no client.
    Pwm,
    /// The flash controller's completion.
    Flash(Option<Completion>),
}

/// What running a deferred call leaves for the clients.
#[derive(Debug, PartialEq, Eq)]
pub enum DeferredEvent {
    /// The flash controller's completion.
    Flash(Option<Completion>),
    /// Timer 0's client's alarm callback is owed.
    Timer0Alarm,
    /// Timer 1's client's alarm callback is owed.
    Timer1Alarm,
    /// Timer 2's client's alarm callback is owed.
    Timer2Alarm,
}

/// The slot, if there is one, is armed.
pub open spec fn slot_pending(slot: Option<DeferredCall>) -> bool {
    match slot {
        Some(call) => call.pending,
        None => false,
    }
}

/// The slot, if there is one, is armed and has a handler.
pub open spec fn slot_due(slot: Option<DeferredCall>) -> bool {
    match slot {
        Some(call) => call.due(),
        None => false,
    }
}

/// The slot after the dispatcher serviced it.
pub open spec fn slot_serviced(slot: Option<DeferredCall>) -> Option<DeferredCall> {
    match slot {
        Some(call) => Some(call.serviced()),
        None => None,
    }
}

/// `completion` is the completion that the driver state `driver` owes.
pub open spec fn completion_of(driver: FtfcView, completion: Option<Completion>) -> bool {
    match completion {
        Some(completion) => driver.completion() == Some(completion@),
        None => driver.completion() is None,
    }
}

/// All peripheral drivers of the chip.
pub struct S32K144DefaultPeripherals {
    pub pwr_clk: Power,
    pub rtc: Rtc,
    pub timer0: crate::lpit0::TimerAlarm,
    pub timer1: crate::lptmr0::TimerAlarm,
    pub timer2: Lpit0Timer,
    pub lpuart0: Lpuart0,
    pub nvmc: Ftfc,
    pub clock: Clock,
    pub pwm0: Pwm,
    pub gpio_port: Port<48>,
}

impl S32K144DefaultPeripherals {
    /// The drivers that carry an invariant are well formed.
    pub open spec fn wf(self) -> bool {
        self.lpuart0.wf() && self.nvmc.wf()
    }

    /// `after` and `serviced` are what serving interrupt `interrupt` makes
    /// of `self`: the interrupts of the power controller, the real-time
    /// clock, the three timers and the UART go to the handler of their
    /// driver, which alone changes; any other number is not served and
    /// changes nothing.
    pub open spec fn interrupt_served(
        self,
        interrupt: u32,
        after: S32K144DefaultPeripherals,
        serviced: Option<Serviced>,
    ) -> bool {
        if interrupt == POWER_CLOCK {
            &&& serviced matches Some(Serviced::Power(events))
            &&& self.pwr_clk.handled(after.pwr_clk, events)
            &&& after == (S32K144DefaultPeripherals { pwr_clk: after.pwr_clk, ..self })
        } else if interrupt == RTC {
            &&& serviced matches Some(Serviced::Rtc(events))
            &&& self.rtc.handled(after.rtc, events)
            &&& after == (S32K144DefaultPeripherals { rtc: after.rtc, ..self })
        } else if interrupt == TIMER0 {
            &&& serviced == Some(Serviced::Timer0)
            &&& self.timer0.handled(after.timer0)
            &&& after == (S32K144DefaultPeripherals { timer0: after.timer0, ..self })
        } else if interrupt == TIMER1 {
            &&& serviced == Some(Serviced::Timer1)
            &&& self.timer1.handled(after.timer1)
            &&& after == (S32K144DefaultPeripherals { timer1: after.timer1, ..self })
        } else if interrupt == TIMER2 {
            &&& serviced == Some(Serviced::Timer2)
            &&& self.timer2.handled(after.timer2)
            &&& after == (S32K144DefaultPeripherals { timer2: after.timer2, ..self })
        } else if interrupt == LPUART0 {
            &&& serviced matches Some(Serviced::Uart(events))
            &&& after.lpuart0@ == self.lpuart0@.transmit_served().receive_served()
            &&& crate::lpuart0::hands_back(
                events.transmitted,
                self.lpuart0@.finished(self.lpuart0@.tx),
            )
            &&& crate::lpuart0::hands_back(
                events.received,
                self.lpuart0@.transmit_served().finished(self.lpuart0@.rx),
            )
            &&& after == (S32K144DefaultPeripherals { lpuart0: after.lpuart0, ..self })
        } else {
            serviced is None && after == self
        }
    }

    /// `after` and `event` are what the dispatcher's next step makes of
    /// `self`: the first armed slot in the order flash controller, timer 0,
    /// timer 1, timer 2 is disarmed, and its handler runs if it has one.
    /// With no slot armed nothing changes.
    pub open spec fn deferred_call_served(
        self,
        after: S32K144DefaultPeripherals,
        event: Option<DeferredEvent>,
    ) -> bool {
        if self.nvmc@.deferred_call.pending {
            &&& after.nvmc@ == self.nvmc@.serviced()
            &&& after == (S32K144DefaultPeripherals { nvmc: after.nvmc, ..self })
            &&& if self.nvmc@.deferred_call.due() {
                event matches Some(DeferredEvent::Flash(completion)) && completion_of(
                    self.nvmc@,
                    completion,
                )
            } else {
                event is None
            }
        } else if slot_pending(self.timer0.deferred_call) {
            &&& after == (S32K144DefaultPeripherals {
                timer0: crate::lpit0::TimerAlarm {
                    deferred_call: slot_serviced(self.timer0.deferred_call),
                    ..self.timer0
                },
                ..self
            })
            &&& event == if slot_due(self.timer0.deferred_call) {
                Some(DeferredEvent::Timer0Alarm)
            } else {
                None
            }
        } else if slot_pending(self.timer1.deferred_call) {
            &&& after == (S32K144DefaultPeripherals {
                timer1: crate::lptmr0::TimerAlarm {
                    deferred_call: slot_serviced(self.timer1.deferred_call),
                    ..self.timer1
                },
                ..self
            })
            &&& event == if slot_due(self.timer1.deferred_call) {
                Some(DeferredEvent::Timer1Alarm)
            } else {
                None
            }
        } else if slot_pending(self.timer2.deferred_call) {
            &&& after == (S32K144DefaultPeripherals {
                timer2: Lpit0Timer {
                    deferred_call: slot_serviced(self.timer2.deferred_call),
                    ..self.timer2
                },
                ..self
            })
            &&& event == if slot_due(self.timer2.deferred_call) {
                Some(DeferredEvent::Timer2Alarm)
            } else {
                None
            }
        } else {
            event is None && after == self
        }
    }

    /// Some slot is armed.
    pub open spec fn pending(self) -> bool {
        ||| self.nvmc@.deferred_call.pending
        ||| slot_pending(self.timer0.deferred_call)
        ||| slot_pending(self.timer1.deferred_call)
        ||| slot_pending(self.timer2.deferred_call)
    }

    /// All drivers in their initial state: registers that read zero, the
    /// flash array erased, no operation in flight, no slot armed.
    pub fn new() -> (peripherals: Self)
        ensures
            peripherals.wf(),
            peripherals.pwr_clk.pmc.zeroed(),
            peripherals.pwr_clk.smc.zeroed(),
            peripherals.rtc.registers.zeroed(),
            !peripherals.rtc.enabled,
            peripherals.timer0.registers.zeroed(),
            peripherals.timer0.deferred_call is None,
            peripherals.timer1.registers.zeroed(),
            peripherals.timer1.deferred_call is None,
            peripherals.timer2.registers.zeroed(),
            peripherals.timer2.deferred_call is None,
            peripherals.lpuart0@.registers.zeroed(),
            peripherals.lpuart0@.tx == (crate::lpuart0::Channel {
                buffer: None,
                len: 0,
                position: 0,
            }),
            peripherals.lpuart0@.rx == peripherals.lpuart0@.tx,
            peripherals.nvmc@ == FtfcView::initial(crate::nvmc::COMMAND_POLLS as nat),
            peripherals.clock.scg_registers.zeroed(),
            peripherals.clock.pcc_registers.zeroed(),
            peripherals.pwm0.registers.zeroed(),
            forall|i: int|
                0 <= i < 48 ==> (#[trigger] peripherals.gpio_port.pins@[i]).pin.number() == i
                    && peripherals.gpio_port.pins@[i].registers.zeroed(),
            !peripherals.pending(),
    {
        S32K144DefaultPeripherals {
            pwr_clk: Power::new(),
            rtc: Rtc::new(),
            timer0: crate::lpit0::TimerAlarm::new(),
            timer1: crate::lptmr0::TimerAlarm::new(),
            timer2: Lpit0Timer::new(),
            lpuart0: Lpuart0::new(
                LpuartRegisters {
                    verid: 0,
                    param: 0,
                    global: 0,
                    pincfg: 0,
                    baud: 0,
                    stat: 0,
                    ctrl: 0,
                    data: 0,
                    match_: 0,
                    modir: 0,
                    fifo: 0,
                    water: 0,
                },
            ),
            nvmc: Ftfc::new(),
            clock: Clock::new(),
            pwm0: Pwm::new(),
            gpio_port: s32k144_gpio_create(),
        }
    }

    /// Ties the drivers to the dispatcher: registers the flash
    /// controller's handler with its slot.
    pub fn init(&mut self)
        requires
            old(self).wf(),
        ensures
            final(self).wf(),
            final(self).nvmc@ == (FtfcView {
                deferred_call: old(self).nvmc@.deferred_call.with_handler(),
                ..old(self).nvmc@
            }),
            *final(self) == (S32K144DefaultPeripherals { nvmc: final(self).nvmc, ..*old(self) }),
    {
        self.nvmc.register();
    }

    /// Serves interrupt `interrupt` and returns what is owed to the
    /// clients, or `None` for an interrupt that no driver here serves.
    pub fn service_interrupt(&mut self, interrupt: u32) -> (serviced: Option<Serviced>)
        requires
            old(self).wf(),
        ensures
            final(self).wf(),
            old(self).interrupt_served(interrupt, *final(self), serviced),
    {
        if interrupt == POWER_CLOCK {
            Some(Serviced::Power(self.pwr_clk.handle_interrupt()))
        } else if interrupt == RTC {
            Some(Serviced::Rtc(self.rtc.handle_interrupt()))
        } else if interrupt == TIMER0 {
            self.timer0.handle_interrupt();
            Some(Serviced::Timer0)
        } else if interrupt == TIMER1 {
            self.timer1.handle_interrupt();
            Some(Serviced::Timer1)
        } else if interrupt == TIMER2 {
            self.timer2.handle_interrupt();
            Some(Serviced::Timer2)
        } else if interrupt == LPUART0 {
            Some(Serviced::Uart(self.lpuart0.handle_interrupt()))
        } else {
            None
        }
    }

    /// Tells whether a deferred call is waiting to be served.
    pub fn has_tasks(&self) -> (pending: bool)
        ensures
            pending == self.pending(),
    {
        self.nvmc.has_pending_deferred_call() || is_pending(&self.timer0.deferred_call)
            || is_pending(&self.timer1.deferred_call) || is_pending(&self.timer2.deferred_call)
    }

    /// One step of the dispatcher, to be taken at a safe point outside any
    /// driver call: serves the first armed slot and returns what its
    /// handler leaves for the client.
    pub fn service_next_pending(&mut self) -> (event: Option<DeferredEvent>)
        requires
            old(self).wf(),
        ensures
            final(self).wf(),
            old(self).deferred_call_served(*final(self), event),
    {
        if self.nvmc.has_pending_deferred_call() {
            let due = self.nvmc.is_deferred_call_due();
            let completion = self.nvmc.service_deferred_call();
            if due {
                Some(DeferredEvent::Flash(completion))
            } else {
                None
            }
        } else if is_pending(&self.timer0.deferred_call) {
            if self.timer0.service_deferred_call() {
                Some(DeferredEvent::Timer0Alarm)
            } else {
                None
            }
        } else if is_pending(&self.timer1.deferred_call) {
            if self.timer1.service_deferred_call() {
                Some(DeferredEvent::Timer1Alarm)
            } else {
                None
            }
        } else if is_pending(&self.timer2.deferred_call) {
            if self.timer2.service_deferred_call() {
                Some(DeferredEvent::Timer2Alarm)
            } else {
                None
            }
        } else {
            None
        }
    }
}

/// Tells whether the slot, if there is one, is armed.
pub fn is_pending(slot: &Option<DeferredCall>) -> (pending: bool)
    ensures
        pending == slot_pending(*slot),
{
    match slot {
        Some(call) => call.is_pending(),
        None => false,
    }
}

} // verus!
