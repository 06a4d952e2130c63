//! What holds of the logger, its gate and its intervals, whatever the
//! callers do and in whatever order they do it.

use vstd::prelude::*;
use crate::emission::{EmissionView, Reply, RequestView, SignpostView, Stage, Step};
use crate::gate::{Admission, Gate, Handle};
use crate::interval::{IntervalState, IntervalView};
use crate::logger::LoggerView;

verus! {

/// One call on a logger's handle, by any of the callers that share it.
pub enum Call {
    /// A caller asks for the handle.
    Get,
    /// A caller hands in a handle.
    Publish(Handle),
}

/// The logger after one call.
pub open spec fn after_call(log: LoggerView, call: Call) -> LoggerView {
    match call {
        Call::Get => log.after_get(),
        Call::Publish(handle) => log.after_publish(handle),
    }
}

/// The logger after the first `n` calls of a schedule, in their order.
pub open spec fn after_calls(log: LoggerView, calls: Seq<Call>, n: nat) -> LoggerView
    decreases n,
{
    if n == 0 || n > calls.len() {
        log
    } else {
        after_call(after_calls(log, calls, (n - 1) as nat), calls[n - 1])
    }
}

/// The answer that the call at place `i` of a schedule gets, if it asks for
/// the handle.
pub open spec fn answer_at(log: LoggerView, calls: Seq<Call>, i: nat) -> Admission {
    after_calls(log, calls, i).admission()
}

/// Whether gate `later` can follow gate `earlier`: a gate never goes back,
/// and a published handle stays.
pub open spec fn follows(earlier: Gate, later: Gate) -> bool {
    match earlier {
        Gate::Uninitialized => true,
        Gate::Initializing => later != Gate::Uninitialized,
        Gate::Ready(handle) => later == Gate::Ready(handle),
    }
}

/// Calls change nothing of a logger but its gate, which only moves
/// forward.
pub proof fn lemma_calls_move_forward(log: LoggerView, calls: Seq<Call>, i: nat, j: nat)
    requires
        i <= j <= calls.len(),
    ensures
        follows(after_calls(log, calls, i).gate, after_calls(log, calls, j).gate),
        after_calls(log, calls, j).subsystem == log.subsystem,
        after_calls(log, calls, j).category == log.category,
        after_calls(log, calls, j).available == log.available,
    decreases j,
{
    if j > 0 {
        if i < j {
            lemma_calls_move_forward(log, calls, i, (j - 1) as nat);
        } else {
            lemma_calls_move_forward(log, calls, (j - 1) as nat, (j - 1) as nat);
        }
    }
}

/// Single initialization: however the calls of any number of callers fall
/// on one logger, at most one of them is told to create the handle, and all
/// that get a handle get the same one.
pub proof fn lemma_single_initialization(log: LoggerView, calls: Seq<Call>, i: nat, j: nat)
    requires
        i < j < calls.len(),
        calls[i as int] == Call::Get,
        calls[j as int] == Call::Get,
    ensures
        !(answer_at(log, calls, i) == Admission::Create && answer_at(log, calls, j)
            == Admission::Create),
        answer_at(log, calls, i) is Resolved && answer_at(log, calls, j) is Resolved ==> answer_at(
            log,
            calls,
            i,
        ) == answer_at(log, calls, j),
{
    lemma_calls_move_forward(log, calls, i, i);
    lemma_calls_move_forward(log, calls, i + 1, j);
    lemma_calls_move_forward(log, calls, i, j);
}

/// Until somebody asks for the handle, nothing that is handed in is stored.
pub proof fn lemma_untouched_before_first_get(log: LoggerView, calls: Seq<Call>, n: nat)
    requires
        n <= calls.len(),
        log.gate == Gate::Uninitialized,
        forall|k: int| 0 <= k < n ==> calls[k] != Call::Get,
    ensures
        after_calls(log, calls, n) == log,
    decreases n,
{
    if n > 0 {
        lemma_untouched_before_first_get(log, calls, (n - 1) as nat);
    }
}

/// On a logger with a backend that nobody has used yet, the first caller
/// that asks for the handle is the one told to create it.
pub proof fn lemma_first_caller_creates(log: LoggerView, calls: Seq<Call>, i: nat)
    requires
        i < calls.len(),
        log.available,
        log.gate == Gate::Uninitialized,
        calls[i as int] == Call::Get,
        forall|k: int| 0 <= k < i ==> calls[k] != Call::Get,
    ensures
        answer_at(log, calls, i) == Admission::Create,
        after_calls(log, calls, i + 1).gate == Gate::Initializing,
{
    lemma_untouched_before_first_get(log, calls, i);
}

/// Without a backend no call changes the logger, and every caller that
/// asks gets the sentinel handle.
pub proof fn lemma_disabled_logger_never_changes(log: LoggerView, calls: Seq<Call>, n: nat)
    requires
        !log.available,
    ensures
        after_calls(log, calls, n) == log,
        answer_at(log, calls, n) == Admission::Resolved(Handle::sentinel()),
    decreases n,
{
    if n > 0 && n <= calls.len() {
        lemma_disabled_logger_never_changes(log, calls, (n - 1) as nat);
    }
}

/// Once the handle is published, every caller that asks gets it, and
/// nobody is told to create or to wait again.
pub proof fn lemma_published_handle_stays(
    log: LoggerView,
    calls: Seq<Call>,
    i: nat,
    j: nat,
    handle: Handle,
)
    requires
        i <= j <= calls.len(),
        log.available,
        after_calls(log, calls, i).gate == Gate::Ready(handle),
    ensures
        answer_at(log, calls, j) == Admission::Resolved(handle),
{
    lemma_calls_move_forward(log, calls, i, j);
}

/// No-op safety: without a backend an emission is finished when it starts,
/// asks for nothing whatever it is told, and leaves the logger as it was.
/// This holds for every record, the reserved ids included.
pub proof fn lemma_disabled_is_noop(log: LoggerView, signpost: SignpostView, reply: Reply)
    requires
        !log.available,
    ensures
        EmissionView::resolve(log, signpost) == (Step {
            log,
            emission: EmissionView { signpost, stage: Stage::Finished },
            request: RequestView::Done,
        }),
        EmissionView::resolve(log, signpost).emission.step(log, reply) == EmissionView::resolve(
            log,
            signpost,
        ),
{
}

/// Without a backend, closing a guard asks for nothing and leaves the
/// logger as it was.
pub proof fn lemma_disabled_close_is_noop(log: LoggerView, interval: IntervalView)
    requires
        !log.available,
    ensures
        interval.log_after_close(log) == log,
        match interval.end_emission(log) {
            Some(emission) => emission.request(log) == RequestView::Done,
            None => true,
        },
{
}

/// A finished emission stays finished and asks for nothing more.
pub proof fn lemma_finished_stays(log: LoggerView, emission: EmissionView, reply: Reply)
    requires
        emission.stage == Stage::Finished,
    ensures
        emission.step(log, reply) == (Step { log, emission, request: RequestView::Done }),
{
}

/// On a logger whose handle is there, an emission asks whether tracing is
/// enabled for that handle, hands out its own record through that handle if
/// it is and nothing if it is not, and is finished; the logger stays as it
/// is throughout.
pub proof fn lemma_emission_on_ready_logger(
    log: LoggerView,
    handle: Handle,
    signpost: SignpostView,
    enabled: bool,
)
    requires
        log.available,
        log.gate == Gate::Ready(handle),
    ensures
        EmissionView::resolve(log, signpost) == (Step {
            log,
            emission: EmissionView { signpost, stage: Stage::Checking(handle) },
            request: RequestView::IsEnabled { handle },
        }),
        EmissionView::resolve(log, signpost).emission.step(log, Reply::Enabled(enabled)) == (Step {
            log,
            emission: EmissionView { signpost, stage: Stage::Finished },
            request: if enabled {
                RequestView::Emit { handle, signpost }
            } else {
                RequestView::Done
            },
        }),
{
}

/// On a logger with a backend that nobody has used yet, the first emission
/// is told to create the handle under the logger's subsystem and category.
/// When it hands the handle in, the logger keeps it and the emission goes
/// on to ask whether tracing is enabled for it.
pub proof fn lemma_first_emission_creates(log: LoggerView, signpost: SignpostView, handle: Handle)
    requires
        log.available,
        log.gate == Gate::Uninitialized,
    ensures
        EmissionView::resolve(log, signpost).request == (RequestView::CreateHandle {
            subsystem: log.subsystem,
            category: log.category,
        }),
        EmissionView::resolve(log, signpost).log == (LoggerView {
            gate: Gate::Initializing,
            ..log
        }),
        EmissionView::resolve(log, signpost).emission.step(
            EmissionView::resolve(log, signpost).log,
            Reply::Created(handle),
        ) == (Step {
            log: LoggerView { gate: Gate::Ready(handle), ..log },
            emission: EmissionView { signpost, stage: Stage::Checking(handle) },
            request: RequestView::IsEnabled { handle },
        }),
{
}

/// The number of end records that `n` calls of close start, one after the
/// other, on a guard.
pub open spec fn ends_started(interval: IntervalView, n: nat) -> nat
    decreases n,
{
    if n == 0 {
        0
    } else if interval.state == IntervalState::Open {
        1 + ends_started(interval.after_close(), (n - 1) as nat)
    } else {
        ends_started(interval.after_close(), (n - 1) as nat)
    }
}

/// A closed guard starts no end record, however often it is closed.
pub proof fn lemma_closed_stays_closed(interval: IntervalView, n: nat)
    requires
        interval.state == IntervalState::Closed,
    ensures
        ends_started(interval, n) == 0,
        interval.after_close() == interval,
    decreases n,
{
    if n > 0 {
        lemma_closed_stays_closed(interval.after_close(), (n - 1) as nat);
    }
}

/// Paired emission: an interval begun with an id and a name starts, over
/// any number of calls of close, exactly one end record, at the first of
/// them, and that record carries the same id and the same name as the begin
/// record.
pub proof fn lemma_paired_emission(id: u64, name: Seq<char>, log: LoggerView, n: nat)
    requires
        n >= 1,
    ensures
        ends_started(IntervalView::opened(id, name), n) == 1,
        IntervalView::opened(id, name).end_emission(log).is_some(),
        IntervalView::opened(id, name).end_emission(log).unwrap().signpost.id == id,
        IntervalView::opened(id, name).end_emission(log).unwrap().signpost.name == name,
        IntervalView::opened(id, name).end_signpost().id == IntervalView::opened(
            id,
            name,
        ).begin_signpost().id,
        IntervalView::opened(id, name).end_signpost().name == IntervalView::opened(
            id,
            name,
        ).begin_signpost().name,
        IntervalView::opened(id, name).after_close().end_emission(log).is_none(),
{
    lemma_closed_stays_closed(IntervalView::opened(id, name).after_close(), (n - 1) as nat);
}

/// Changing the category changes nothing else. A logger that nobody has
/// used yet then creates its handle under the new category, never under
/// the old one; a logger whose handle is there keeps that handle.
pub proof fn lemma_with_category(log: LoggerView, category: Seq<char>, signpost: SignpostView)
    ensures
        log.with_category(category).category == category,
        log.with_category(category).subsystem == log.subsystem,
        log.with_category(category).gate == log.gate,
        log.with_category(category).admission() == log.admission(),
        log.with_category(category).with_category(category) == log.with_category(category),
        log.available && log.gate == Gate::Uninitialized ==> EmissionView::resolve(
            log.with_category(category),
            signpost,
        ).request == (RequestView::CreateHandle { subsystem: log.subsystem, category }),
        forall|handle: Handle|
            log.gate == Gate::Ready(handle) ==> EmissionView::resolve(
                log.with_category(category),
                signpost,
            ).request == EmissionView::resolve(log, signpost).request,
{
}

/// Intervals with different ids are disjoint: closing one of two open
/// guards leaves the other open, with its own id and name, and the end
/// record that the other starts later is its own.
pub proof fn lemma_closing_one_leaves_other_open(
    first: IntervalView,
    second: IntervalView,
    log: LoggerView,
)
    requires
        first.state == IntervalState::Open,
        second.state == IntervalState::Open,
        first.id != second.id,
    ensures
        first.after_close().state == IntervalState::Closed,
        second.end_emission(first.log_after_close(log)).is_some(),
        second.end_emission(first.log_after_close(log)).unwrap().signpost == second.end_signpost(),
        second.end_signpost() != first.end_signpost(),
        second.after_close().end_emission(first.log_after_close(log)).is_none(),
{
}

} // verus!
