//! The one-time initialization gate that guards a logger's backend handle.

use vstd::prelude::*;

verus! {

/// An opaque backend handle.
#[derive(Clone, Copy, Debug, PartialEq, Eq, Structural)]
pub struct Handle {
    pub raw: usize,
}

impl Handle {
    /// The fixed handle that stands for "no backend".
    pub open spec fn sentinel() -> Handle {
        Handle { raw: 0 }
    }

    /// The fixed handle that stands for "no backend".
    pub fn none() -> (handle: Handle)
        ensures
            handle == Handle::sentinel(),
    {
        Handle { raw: 0 }
    }
}

/// Where the one-time initialization of a handle stands.
#[derive(Clone, Copy, Debug, PartialEq, Eq, Structural)]
pub enum Gate {
    /// Nobody has asked for the handle yet.
    Uninitialized,
    /// One caller is creating the handle; everybody else waits.
    Initializing,
    /// The handle was created and published; it never changes again.
    Ready(Handle),
}

/// The answer to a caller that asks for the handle.
#[derive(Clone, Copy, Debug, PartialEq, Eq, Structural)]
pub enum Admission {
    /// The caller is the one that creates the handle, then publishes it.
    Create,
    /// Another caller is creating the handle: wait, then ask again.
    Wait,
    /// The handle is there.
    Resolved(Handle),
}

impl Gate {
    /// This gate after a caller has asked for the handle.
    pub open spec fn after_enter(self) -> Gate {
        match self {
            Gate::Uninitialized => Gate::Initializing,
            other => other,
        }
    }

    /// The answer given to a caller that asks for the handle.
    pub open spec fn admission(self) -> Admission {
        match self {
            Gate::Uninitialized => Admission::Create,
            Gate::Initializing => Admission::Wait,
            Gate::Ready(h) => Admission::Resolved(h),
        }
    }

    /// This gate after the creating caller has published `handle`.
    pub open spec fn after_publish(self, handle: Handle) -> Gate {
        match self {
            Gate::Initializing => Gate::Ready(handle),
            other => other,
        }
    }

    /// A gate that nobody has passed yet.
    pub fn new() -> (gate: Gate)
        ensures
            gate == Gate::Uninitialized,
    {
        Gate::Uninitialized
    }

    /// Asks for the handle. The first caller is told to create it, callers
    /// that arrive while it is being created are told to wait, and every
    /// caller after that gets the published handle.
    pub fn enter(&mut self) -> (admission: Admission)
        ensures
            admission == old(self).admission(),
            *final(self) == old(self).after_enter(),
    {
        match *self {
            Gate::Uninitialized => {
                *self = Gate::Initializing;
                Admission::Create
            },
            Gate::Initializing => Admission::Wait,
            Gate::Ready(h) => Admission::Resolved(h),
        }
    }

    /// Publishes the handle that the creating caller obtained. Only a gate
    /// that is being initialized takes it: a handle is written at most once.
    pub fn publish(&mut self, handle: Handle)
        ensures
            *final(self) == old(self).after_publish(handle),
    {
        match *self {
            Gate::Initializing => {
                *self = Gate::Ready(handle);
            },
            _ => {},
        }
    }
}

} // verus!
