//! The logger: a fixed (subsystem, category) identity and the lazily
//! resolved backend handle behind its one-time gate.

use vstd::prelude::*;
use crate::gate::{Admission, Gate, Handle};

verus! {

/// Category shown as "Points of Interest" by the profiling tool.
pub const CATEGORY_POINTS_OF_INTEREST: &'static str = "PointsOfInterest";

/// Category that is off until the process runs under the profiling tool.
pub const CATEGORY_DYNAMIC_TRACING: &'static str = "DynamicTracing";

/// Like dynamic tracing, and records a stack trace with each signpost.
pub const CATEGORY_DYNAMIC_STACK_TRACING: &'static str = "DynamicStackTracing";

/// Signpost logger.
pub struct OsLog {
    subsystem: &'static str,
    category: &'static str,
    available: bool,
    gate: Gate,
}

/// What a logger is, as plain values.
pub struct LoggerView {
    pub subsystem: Seq<char>,
    pub category: Seq<char>,
    /// Whether a backend exists in this build. Fixed when the logger is made.
    pub available: bool,
    pub gate: Gate,
}

impl LoggerView {
    /// A logger that has not been used yet.
    pub open spec fn fresh(subsystem: Seq<char>, category: Seq<char>, available: bool) -> LoggerView {
        LoggerView { subsystem, category, available, gate: Gate::Uninitialized }
    }

    /// The answer to a caller that asks for the handle.
    pub open spec fn admission(self) -> Admission {
        if self.available {
            self.gate.admission()
        } else {
            Admission::Resolved(Handle::sentinel())
        }
    }

    /// The logger after a caller has asked for the handle.
    pub open spec fn after_get(self) -> LoggerView {
        if self.available {
            LoggerView { gate: self.gate.after_enter(), ..self }
        } else {
            self
        }
    }

    /// The logger after a caller has handed in the handle that it created.
    pub open spec fn after_publish(self, handle: Handle) -> LoggerView {
        if self.available {
            LoggerView { gate: self.gate.after_publish(handle), ..self }
        } else {
            self
        }
    }

    /// The same logger under another category.
    pub open spec fn with_category(self, category: Seq<char>) -> LoggerView {
        LoggerView { category, ..self }
    }
}

impl View for OsLog {
    type V = LoggerView;

    closed spec fn view(&self) -> LoggerView {
        LoggerView {
            subsystem: self.subsystem@,
            category: self.category@,
            available: self.available,
            gate: self.gate,
        }
    }
}

impl OsLog {
    /// Create a new signpost logger on a build that has the backend.
    ///
    /// Nothing is asked of the backend here: the handle is created when the
    /// logger is first used.
    pub fn new(subsystem: &'static str, category: &'static str) -> (log: OsLog)
        ensures
            log@ == LoggerView::fresh(subsystem@, category@, true),
    {
        OsLog { subsystem, category, available: true, gate: Gate::new() }
    }

    /// Create a logger for a build without the backend, or with tracing
    /// switched off: every operation on it is a no-op.
    pub fn disabled(subsystem: &'static str, category: &'static str) -> (log: OsLog)
        ensures
            log@ == LoggerView::fresh(subsystem@, category@, false),
    {
        OsLog { subsystem, category, available: false, gate: Gate::new() }
    }

    /// Change the category of a newly constructed logger.
    ///
    /// Only the category changes. A logger whose handle is already there
    /// keeps it, so the new category plays no part in it any more.
    pub fn with_category(self, category: &'static str) -> (log: OsLog)
        ensures
            log@ == self@.with_category(category@),
    {
        OsLog { subsystem: self.subsystem, category, available: self.available, gate: self.gate }
    }

    /// The subsystem that the logger was made with.
    pub fn subsystem(&self) -> (subsystem: &'static str)
        ensures
            subsystem@ == self@.subsystem,
    {
        self.subsystem
    }

    /// The category that the logger carries. A handle that is not there yet
    /// is created under it.
    pub fn category(&self) -> (category: &'static str)
        ensures
            category@ == self@.category,
    {
        self.category
    }

    /// Whether this build has a backend at all.
    pub fn is_available(&self) -> (available: bool)
        ensures
            available == self@.available,
    {
        self.available
    }

    /// Resolves the backend handle.
    ///
    /// Without a backend the answer is the sentinel handle, and nothing is
    /// initialized. Otherwise the first caller is told to
    /// create the handle and must hand it in with [`OsLog::publish`], a
    /// caller that arrives meanwhile is told to wait, and once the handle is
    /// published every caller gets that same handle.
    pub fn get(&mut self) -> (admission: Admission)
        ensures
            admission == old(self)@.admission(),
            final(self)@ == old(self)@.after_get(),
    {
        if self.available {
            self.gate.enter()
        } else {
            Admission::Resolved(Handle::none())
        }
    }

    /// Hands in the handle that the backend created for the caller that
    /// [`OsLog::get`] told to create it. It is stored only while its gate is
    /// waiting for it, so a handle is written at most once.
    pub fn publish(&mut self, handle: Handle)
        ensures
            final(self)@ == old(self)@.after_publish(handle),
    {
        if self.available {
            self.gate.publish(handle);
        }
    }
}

} // verus!
