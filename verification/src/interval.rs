//! Timed intervals and the guard that closes each of them exactly once.

use vstd::prelude::*;
use crate::emission::{Emission, EmissionView, Signpost, SignpostKind, SignpostView, Stage};
use crate::logger::{LoggerView, OsLog};

verus! {

/// The two states of an interval.
#[derive(Clone, Copy, Debug, PartialEq, Eq, Structural)]
pub enum IntervalState {
    /// Begun, and not yet ended.
    Open,
    /// Ended. Nothing leads back to `Open`.
    Closed,
}

/// Scope guard for signpost intervals.
///
/// It keeps the id and the name that the interval was begun with, so that
/// the end record carries the same ones.
pub struct SignpostInterval<'a> {
    id: u64,
    name: &'a str,
    state: IntervalState,
}

/// A guard as plain values.
pub struct IntervalView {
    pub id: u64,
    pub name: Seq<char>,
    pub state: IntervalState,
}

impl IntervalView {
    /// The guard of an interval that was just begun.
    pub open spec fn opened(id: u64, name: Seq<char>) -> IntervalView {
        IntervalView { id, name, state: IntervalState::Open }
    }

    /// The record that begins the interval.
    pub open spec fn begin_signpost(self) -> SignpostView {
        SignpostView { kind: SignpostKind::IntervalBegin, id: self.id, name: self.name }
    }

    /// The record that ends the interval.
    pub open spec fn end_signpost(self) -> SignpostView {
        SignpostView { kind: SignpostKind::IntervalEnd, id: self.id, name: self.name }
    }

    /// The guard after it was closed.
    pub open spec fn after_close(self) -> IntervalView {
        IntervalView { state: IntervalState::Closed, ..self }
    }

    /// The logger after the guard was closed on it: an open guard asks it
    /// for the handle, a closed one leaves it alone.
    pub open spec fn log_after_close(self, log: LoggerView) -> LoggerView {
        match self.state {
            IntervalState::Open => EmissionView::resolve(log, self.end_signpost()).log,
            IntervalState::Closed => log,
        }
    }

    /// The emission that closing the guard starts: that of the end record
    /// for an open guard, none for a closed one.
    pub open spec fn end_emission(self, log: LoggerView) -> Option<EmissionView> {
        match self.state {
            IntervalState::Open => Some(EmissionView::resolve(log, self.end_signpost()).emission),
            IntervalState::Closed => None,
        }
    }
}

impl<'a> View for SignpostInterval<'a> {
    type V = IntervalView;

    closed spec fn view(&self) -> IntervalView {
        IntervalView { id: self.id, name: self.name@, state: self.state }
    }
}

impl<'a> SignpostInterval<'a> {
    /// The id that the interval was begun with.
    pub fn id(&self) -> (id: u64)
        ensures
            id == self@.id,
    {
        self.id
    }

    /// The name that the interval was begun with.
    pub fn name(&self) -> (name: &'a str)
        ensures
            name@ == self@.name,
    {
        self.name
    }

    /// Whether the interval has not been ended yet.
    pub fn is_open(&self) -> (open: bool)
        ensures
            open == (self@.state == IntervalState::Open),
    {
        match self.state {
            IntervalState::Open => true,
            IntervalState::Closed => false,
        }
    }

    /// Ends the interval, on the logger that it was begun on.
    ///
    /// The first call closes the guard and starts the emission of the end
    /// record, with the id and the name that the interval was begun with.
    /// Every later call returns `None` and changes nothing, so that an
    /// interval is ended once and no more.
    pub fn close(&mut self, log: &mut OsLog) -> (emission: Option<Emission<'a>>)
        ensures
            final(self)@ == old(self)@.after_close(),
            final(log)@ == old(self)@.log_after_close(old(log)@),
            emission.is_some() == (old(self)@.state == IntervalState::Open),
            match emission {
                Some(e) => Some(e@) == old(self)@.end_emission(old(log)@),
                None => old(self)@.end_emission(old(log)@).is_none(),
            },
    {
        match self.state {
            IntervalState::Open => {
                self.state = IntervalState::Closed;
                let signpost = Signpost {
                    kind: SignpostKind::IntervalEnd,
                    id: self.id,
                    name: self.name,
                };
                Some(Emission::start(log, signpost))
            },
            IntervalState::Closed => None,
        }
    }
}

impl OsLog {
    /// Start a timed event.
    ///
    /// Returns the guard of the interval, which is open, and the emission
    /// of the begin record. The guard is returned whether or not a backend
    /// exists and whether or not tracing is enabled.
    ///
    /// The id tells overlapping intervals apart: it must be unique among
    /// the intervals that can be open on this logger at the same time.
    pub fn begin_interval<'a>(&mut self, id: u64, name: &'a str) -> (begun: (
        SignpostInterval<'a>,
        Emission<'a>,
    ))
        ensures
            begun.0@ == IntervalView::opened(id, name@),
            begun.1@ == EmissionView::resolve(old(self)@, begun.0@.begin_signpost()).emission,
            final(self)@ == EmissionView::resolve(old(self)@, begun.0@.begin_signpost()).log,
            !old(self)@.available ==> begun.1@.stage == Stage::Finished && final(self)@ == old(
                self,
            )@,
    {
        let signpost = Signpost { kind: SignpostKind::IntervalBegin, id, name };
        let emission = Emission::start(self, signpost);
        (SignpostInterval { id, name, state: IntervalState::Open }, emission)
    }
}

} // verus!
