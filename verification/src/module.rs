//! The per-module handle onto the event bus.
//!
//! A [`ModuleCtx`] binds a module's stable identifier to one subscription on
//! a bus; its send operations stamp a payload with that identifier and
//! publish it. Publishing through a context never fails: with no live
//! subscribers it is a silent no-op, per the bus contract.

use vstd::prelude::*;

verus! {

use vstd::string::StringExecFns;

use crate::event_bus::{Event, EventBus, EventKind, Reading, RecvResult};

/// A module's handle: its name (never empty) and its subscription on the
/// shared bus.
#[derive(Debug)]
pub struct ModuleCtx {
    pub name: String,
    /// The subscriber identifier handed out by [`EventBus::subscribe`].
    pub subscription: usize,
}

impl ModuleCtx {
    /// The module identifier is never empty, so every event this context
    /// publishes carries a non-empty source.
    pub open spec fn wf(&self) -> bool {
        self.name@.len() > 0
    }

    /// The context is bound to a subscriber that `bus` knows.
    pub open spec fn bound_to(&self, bus: EventBus) -> bool {
        self.subscription < bus@.cursors.len()
    }

    /// Bind `name` to a publish handle and a fresh subscription on `bus`.
    pub fn new(name: &str, bus: &mut EventBus) -> (ctx: ModuleCtx)
        requires
            name@.len() > 0,
            old(bus).wf(),
        ensures
            ctx.wf(),
            ctx.name@ == name@,
            ctx.subscription == old(bus)@.cursors.len(),
            final(bus).wf(),
            final(bus)@ == old(bus)@.subscribe(),
            ctx.bound_to(*final(bus)),
    {
        let subscription = bus.subscribe();
        ModuleCtx { name: String::from_str(name), subscription }
    }

    /// Wrap `event_kind` into an event stamped with this module's name and
    /// publish it. Never reports a failure to the caller.
    pub fn send(&self, bus: &mut EventBus, event_kind: EventKind)
        requires
            self.wf(),
            event_kind.wf(),
            old(bus).wf(),
            old(bus)@.total() < usize::MAX,
        ensures
            final(bus).wf(),
            final(bus)@ == old(bus)@.publish(Event { module: self.name, inner: event_kind }),
    {
        let event = Event { module: self.name.clone(), inner: event_kind };
        bus.publish(event);
    }

    /// Publish a message event under this module's name.
    pub fn send_message(&self, bus: &mut EventBus, message: String)
        requires
            self.wf(),
            old(bus).wf(),
            old(bus)@.total() < usize::MAX,
        ensures
            final(bus).wf(),
            final(bus)@ == old(bus)@.publish(
                Event { module: self.name, inner: EventKind::Message(message) },
            ),
    {
        self.send(bus, EventKind::Message(message));
    }

    /// Publish a reading event under this module's name.
    pub fn send_reading(&self, bus: &mut EventBus, reading: Reading)
        requires
            self.wf(),
            reading.wf(),
            old(bus).wf(),
            old(bus)@.total() < usize::MAX,
        ensures
            final(bus).wf(),
            final(bus)@ == old(bus)@.publish(
                Event { module: self.name, inner: EventKind::Reading(reading) },
            ),
    {
        self.send(bus, EventKind::Reading(reading));
    }

    /// One receive attempt on this module's own subscription.
    pub fn recv(&self, bus: &mut EventBus) -> (r: RecvResult)
        requires
            old(bus).wf(),
            self.bound_to(*old(bus)),
        ensures
            final(bus).wf(),
            final(bus)@ == old(bus)@.recv(self.subscription as int),
            r == old(bus)@.recv_result(self.subscription as int),
    {
        bus.recv(self.subscription)
    }
}

} // verus!
