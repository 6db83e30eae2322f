//! Deferred completion: a one-shot token that a driver arms when it wants
//! its completion handler to run later, and that the scheduling loop
//! services outside the call that armed it.

use vstd::prelude::*;

verus! {

/// A driver's slot with the dispatcher.
#[derive(Clone, Copy, Debug, PartialEq, Eq, Structural)]
pub struct DeferredCall {
    /// A handler was registered for the slot.
    pub registered: bool,
    /// The slot is armed: the handler is owed one run.
    pub pending: bool,
}

impl DeferredCall {
    /// The slot with its handler registered.
    pub open spec fn with_handler(self) -> DeferredCall {
        DeferredCall { registered: true, ..self }
    }

    /// The slot after it was armed. Arming an armed slot changes nothing:
    /// the handler is still owed one run.
    pub open spec fn armed(self) -> DeferredCall {
        DeferredCall { pending: true, ..self }
    }

    /// The slot after the dispatcher serviced it.
    pub open spec fn serviced(self) -> DeferredCall {
        DeferredCall { pending: false, ..self }
    }

    /// Servicing the slot now runs the handler.
    pub open spec fn due(self) -> bool {
        self.pending && self.registered
    }

    /// A fresh slot: no handler, not armed.
    pub fn new() -> (call: Self)
        ensures
            call == (DeferredCall { registered: false, pending: false }),
    {
        DeferredCall { registered: false, pending: false }
    }

    /// Records that the owning driver registered its handler.
    pub fn register(&mut self)
        ensures
            *final(self) == old(self).with_handler(),
    {
        self.registered = true;
    }

    /// Arms the slot. The handler does not run here; it runs when the slot
    /// is next serviced.
    pub fn set(&mut self)
        ensures
            *final(self) == old(self).armed(),
    {
        self.pending = true;
    }

    /// Tells whether the slot is armed.
    pub fn is_pending(&self) -> (pending: bool)
        ensures
            pending == self.pending,
    {
        self.pending
    }

    /// Services the slot: disarms it and tells whether the handler must run
    /// now, which is the case when the slot was armed and has a handler.
    pub fn service(&mut self) -> (run: bool)
        ensures
            *final(self) == old(self).serviced(),
            run == old(self).due(),
    {
        let run = self.pending && self.registered;
        self.pending = false;
        run
    }
}

/// An armed slot with a handler is served exactly once: arming runs
/// nothing, the first service after it runs the handler, and a second
/// service, with no arming in between, does not. Arming an armed slot owes
/// no second run.
pub proof fn law_armed_slot_served_once(call: DeferredCall)
    ensures
        call.armed().with_handler().due(),
        !call.serviced().due(),
        call.armed().armed() == call.armed(),
{
}

} // verus!
