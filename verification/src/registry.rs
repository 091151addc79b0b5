//! The process-wide record of whether the window class is registered.
//!
//! The caller keeps one registry behind a lock and shares it among all
//! sessions, so that the class is registered once and never in a race.
use vstd::prelude::*;
use crate::error::AdapterError;
use crate::session::SessionEvent;

verus! {

/// Whether the window class is known to the platform.
#[derive(Clone, Copy, Debug, PartialEq, Eq, Structural)]
pub struct ClassRegistry {
    pub registered: bool,
}

impl ClassRegistry {
    /// The registry after the platform answered a registration call with
    /// `outcome`: a class once registered stays registered.
    pub open spec fn recorded(self, outcome: Result<(), AdapterError>) -> ClassRegistry {
        ClassRegistry { registered: self.registered || outcome is Ok }
    }

    /// What a session is told about its class.
    pub open spec fn event(self) -> SessionEvent {
        if self.registered {
            SessionEvent::ClassRegistered
        } else {
            SessionEvent::RegistrationFailed
        }
    }

    /// A registry in a process that has registered nothing yet.
    pub fn new() -> (r: Self)
        ensures
            !r.registered,
    {
        ClassRegistry { registered: false }
    }

    /// Whether the platform must still be asked to register the class.
    pub fn needs_registration(&self) -> (b: bool)
        ensures
            b == !self.registered,
    {
        !self.registered
    }

    /// Takes note of the platform's answer to a registration call and
    /// returns the event for the session that asked.
    pub fn record(&mut self, outcome: Result<(), AdapterError>) -> (event: SessionEvent)
        ensures
            *final(self) == old(self).recorded(outcome),
            event == final(self).event(),
    {
        if outcome.is_ok() {
            self.registered = true;
        }
        self.current_event()
    }

    /// The event for a session that finds the registry as it is.
    pub fn current_event(&self) -> (event: SessionEvent)
        ensures
            event == self.event(),
    {
        if self.registered {
            SessionEvent::ClassRegistered
        } else {
            SessionEvent::RegistrationFailed
        }
    }
}

/// Registration is idempotent: once the class is registered, every later
/// answer of the platform leaves it registered, and every session is told so.
pub proof fn lemma_registration_is_idempotent(
    r: ClassRegistry,
    first: Result<(), AdapterError>,
    second: Result<(), AdapterError>,
)
    ensures
        r.registered ==> r.recorded(first) == r,
        first is Ok ==> r.recorded(first).recorded(second) == r.recorded(first),
        first is Ok ==> r.recorded(first).recorded(second).event() is ClassRegistered,
        r.recorded(first).event() is RegistrationFailed <==> !r.registered && first is Err,
{
}

} // verus!
