//! Do-not-disturb: a flag whose every change is announced to the frontends.
use vstd::prelude::*;
use crate::notifications::types::NotificationEvent;

verus! {

/// Whether do-not-disturb is on. It starts off.
#[derive(Debug)]
pub struct DndState {
    enabled: bool,
}

impl DndState {
    /// The flag as it stands.
    pub closed spec fn spec_enabled(&self) -> bool {
        self.enabled
    }

    /// Do-not-disturb, off.
    pub fn new() -> (r: DndState)
        ensures
            !r.spec_enabled(),
    {
        DndState { enabled: false }
    }

    /// Whether do-not-disturb is on.
    pub fn is_enabled(&self) -> (r: bool)
        ensures
            r == self.spec_enabled(),
    {
        self.enabled
    }

    /// Sets the flag and returns the event announcing it (sent on every call, changed or
    /// not).
    pub fn set_enabled(&mut self, enabled: bool) -> (r: NotificationEvent)
        ensures
            final(self).spec_enabled() == enabled,
            r == (NotificationEvent::DndChanged { enabled }),
    {
        self.enabled = enabled;
        NotificationEvent::DndChanged { enabled }
    }
}

} // verus!
