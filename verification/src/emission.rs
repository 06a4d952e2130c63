//! One record on its way to the backend.
//!
//! The library never calls the backend itself. An [`Emission`] says which
//! backend primitive has to be performed next, and takes the backend's
//! answer to decide what follows.

use vstd::prelude::*;
use crate::gate::{Admission, Handle};
use crate::logger::{LoggerView, OsLog};

verus! {

/// The kind of a record.
#[derive(Clone, Copy, Debug, PartialEq, Eq, Structural)]
pub enum SignpostKind {
    /// A single point in time.
    Event,
    /// The start of a timed interval.
    IntervalBegin,
    /// The end of a timed interval.
    IntervalEnd,
}

/// One record: its kind, the caller's id and the name.
#[derive(Clone, Copy, Debug)]
pub struct Signpost<'a> {
    pub kind: SignpostKind,
    pub id: u64,
    pub name: &'a str,
}

/// A record as plain values.
pub struct SignpostView {
    pub kind: SignpostKind,
    pub id: u64,
    pub name: Seq<char>,
}

impl<'a> View for Signpost<'a> {
    type V = SignpostView;

    open spec fn view(&self) -> SignpostView {
        SignpostView { kind: self.kind, id: self.id, name: self.name@ }
    }
}

/// The backend primitive that has to be performed next.
#[derive(Clone, Copy, Debug)]
pub enum Request<'a> {
    /// Create the handle for this identity, and answer [`Reply::Created`].
    CreateHandle { subsystem: &'static str, category: &'static str },
    /// Another caller is creating the handle: block until it is published,
    /// and answer [`Reply::Woken`].
    Wait,
    /// Ask whether tracing is enabled for the handle, and answer
    /// [`Reply::Enabled`].
    IsEnabled { handle: Handle },
    /// Emit the record through the handle. Nothing is to be answered.
    Emit { handle: Handle, signpost: Signpost<'a> },
    /// Nothing is left to do.
    Done,
}

/// A request as plain values.
pub enum RequestView {
    CreateHandle { subsystem: Seq<char>, category: Seq<char> },
    Wait,
    IsEnabled { handle: Handle },
    Emit { handle: Handle, signpost: SignpostView },
    Done,
}

impl<'a> View for Request<'a> {
    type V = RequestView;

    open spec fn view(&self) -> RequestView {
        match *self {
            Request::CreateHandle { subsystem, category } => RequestView::CreateHandle {
                subsystem: subsystem@,
                category: category@,
            },
            Request::Wait => RequestView::Wait,
            Request::IsEnabled { handle } => RequestView::IsEnabled { handle },
            Request::Emit { handle, signpost } => RequestView::Emit { handle, signpost: signpost@ },
            Request::Done => RequestView::Done,
        }
    }
}

/// What the backend, or the wait for another caller, came back with.
#[derive(Clone, Copy, Debug, PartialEq, Eq, Structural)]
pub enum Reply {
    /// The backend created this handle.
    Created(Handle),
    /// The wait for the handle is over.
    Woken,
    /// Whether tracing is enabled for the handle that was asked about.
    Enabled(bool),
}

/// How far an emission has come.
#[derive(Clone, Copy, Debug, PartialEq, Eq, Structural)]
pub enum Stage {
    /// This caller creates the handle.
    Creating,
    /// Another caller creates the handle.
    Waiting,
    /// The handle is known; whether tracing is enabled is being asked.
    Checking(Handle),
    /// Nothing is left to do.
    Finished,
}

/// An emission as plain values.
pub struct EmissionView {
    pub signpost: SignpostView,
    pub stage: Stage,
}

/// The outcome of one step: the logger and the emission after it, and the
/// request that the step hands out.
pub struct Step {
    pub log: LoggerView,
    pub emission: EmissionView,
    pub request: RequestView,
}

impl EmissionView {
    /// The request that an emission in this stage is waiting on.
    pub open spec fn request(self, log: LoggerView) -> RequestView {
        match self.stage {
            Stage::Creating => RequestView::CreateHandle {
                subsystem: log.subsystem,
                category: log.category,
            },
            Stage::Waiting => RequestView::Wait,
            Stage::Checking(handle) => RequestView::IsEnabled { handle },
            Stage::Finished => RequestView::Done,
        }
    }

    /// The stage that an emission enters when it asks `log` for the handle.
    /// Without a backend it is finished at once.
    pub open spec fn stage_after_get(log: LoggerView) -> Stage {
        if !log.available {
            Stage::Finished
        } else {
            match log.admission() {
                Admission::Create => Stage::Creating,
                Admission::Wait => Stage::Waiting,
                Admission::Resolved(handle) => Stage::Checking(handle),
            }
        }
    }

    /// Asks `log` for the handle on behalf of `signpost`.
    pub open spec fn resolve(log: LoggerView, signpost: SignpostView) -> Step {
        let emission = EmissionView { signpost, stage: Self::stage_after_get(log) };
        let log = log.after_get();
        Step { log, emission, request: emission.request(log) }
    }

    /// Whether `reply` answers the request that this emission is waiting on.
    pub open spec fn expects(self, reply: Reply) -> bool {
        match (self.stage, reply) {
            (Stage::Creating, Reply::Created(_)) => true,
            (Stage::Waiting, Reply::Woken) => true,
            (Stage::Checking(_), Reply::Enabled(_)) => true,
            _ => false,
        }
    }

    /// One step: the emission takes `reply` and decides what follows.
    ///
    /// A created handle is handed to the logger, which is then asked again,
    /// as it is after a wait. When tracing is enabled the record is handed
    /// out for emission, and the emission is finished either way. A reply
    /// that answers nothing changes nothing.
    pub open spec fn step(self, log: LoggerView, reply: Reply) -> Step {
        match (self.stage, reply) {
            (Stage::Creating, Reply::Created(handle)) => Self::resolve(
                log.after_publish(handle),
                self.signpost,
            ),
            (Stage::Waiting, Reply::Woken) => Self::resolve(log, self.signpost),
            (Stage::Checking(handle), Reply::Enabled(enabled)) => Step {
                log,
                emission: EmissionView { signpost: self.signpost, stage: Stage::Finished },
                request: if enabled {
                    RequestView::Emit { handle, signpost: self.signpost }
                } else {
                    RequestView::Done
                },
            },
            _ => Step { log, emission: self, request: self.request(log) },
        }
    }
}

/// One record on its way to the backend through one logger.
pub struct Emission<'a> {
    signpost: Signpost<'a>,
    stage: Stage,
}

impl<'a> View for Emission<'a> {
    type V = EmissionView;

    closed spec fn view(&self) -> EmissionView {
        EmissionView { signpost: self.signpost@, stage: self.stage }
    }
}

impl<'a> Emission<'a> {
    /// Starts the emission of `signpost` through `log`: the logger is asked
    /// for its handle.
    pub(crate) fn start(log: &mut OsLog, signpost: Signpost<'a>) -> (emission: Emission<'a>)
        ensures
            emission@ == EmissionView::resolve(old(log)@, signpost@).emission,
            final(log)@ == EmissionView::resolve(old(log)@, signpost@).log,
    {
        let stage = if !log.is_available() {
            Stage::Finished
        } else {
            match log.get() {
                Admission::Create => Stage::Creating,
                Admission::Wait => Stage::Waiting,
                Admission::Resolved(handle) => Stage::Checking(handle),
            }
        };
        Emission { signpost, stage }
    }

    /// The record that is being emitted.
    pub fn signpost(&self) -> (signpost: Signpost<'a>)
        ensures
            signpost@ == self@.signpost,
    {
        self.signpost
    }

    /// Whether nothing is left to do.
    pub fn is_finished(&self) -> (finished: bool)
        ensures
            finished == (self@.stage == Stage::Finished),
    {
        match self.stage {
            Stage::Finished => true,
            _ => false,
        }
    }

    /// The request that the emission is waiting on.
    pub fn request(&self, log: &OsLog) -> (request: Request<'a>)
        ensures
            request@ == self@.request(log@),
    {
        match self.stage {
            Stage::Creating => Request::CreateHandle {
                subsystem: log.subsystem(),
                category: log.category(),
            },
            Stage::Waiting => Request::Wait,
            Stage::Checking(handle) => Request::IsEnabled { handle },
            Stage::Finished => Request::Done,
        }
    }

    /// Takes the answer to the request that the emission was waiting on, and
    /// returns the request that follows.
    pub fn advance(&mut self, log: &mut OsLog, reply: Reply) -> (request: Request<'a>)
        ensures
            final(self)@ == old(self)@.step(old(log)@, reply).emission,
            final(log)@ == old(self)@.step(old(log)@, reply).log,
            request@ == old(self)@.step(old(log)@, reply).request,
    {
        match (self.stage, reply) {
            (Stage::Creating, Reply::Created(handle)) => {
                log.publish(handle);
                *self = Emission::start(log, self.signpost);
                self.request(log)
            },
            (Stage::Waiting, Reply::Woken) => {
                *self = Emission::start(log, self.signpost);
                self.request(log)
            },
            (Stage::Checking(handle), Reply::Enabled(enabled)) => {
                self.stage = Stage::Finished;
                if enabled {
                    Request::Emit { handle, signpost: self.signpost }
                } else {
                    Request::Done
                }
            },
            _ => self.request(log),
        }
    }
}

impl OsLog {
    /// Emit an event to the logger: a single point in time.
    ///
    /// The returned emission says what is to be asked of the backend. The
    /// record goes out only if the backend reports tracing as enabled.
    /// Without a backend the emission is finished at once and the logger is
    /// left as it was, whatever `id` and `name` are.
    pub fn emit_event<'a>(&mut self, id: u64, name: &'a str) -> (emission: Emission<'a>)
        ensures
            emission@ == EmissionView::resolve(
                old(self)@,
                SignpostView { kind: SignpostKind::Event, id, name: name@ },
            ).emission,
            final(self)@ == EmissionView::resolve(
                old(self)@,
                SignpostView { kind: SignpostKind::Event, id, name: name@ },
            ).log,
            !old(self)@.available ==> emission@.stage == Stage::Finished && final(self)@ == old(
                self,
            )@,
    {
        Emission::start(self, Signpost { kind: SignpostKind::Event, id, name })
    }
}

} // verus!
