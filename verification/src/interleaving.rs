//! Any number of callers on one logger.
//!
//! The callers' steps are laid out in one line, in whatever order they
//! fall. The laws of this module hold for every such line.

use vstd::prelude::*;
use crate::emission::{EmissionView, Reply, RequestView, SignpostView, Stage};
use crate::gate::{Gate, Handle};
use crate::logger::LoggerView;

verus! {

/// One step of one caller.
pub enum Move {
    /// A new caller starts the emission of a record.
    Start(SignpostView),
    /// The caller with this number answers the request that it holds.
    Answer(int, Reply),
}

/// A request, and the number of the caller that it was handed to.
pub struct Issued {
    pub to: int,
    pub request: RequestView,
}

/// One logger, the emissions of its callers in the order in which they
/// started, and every request handed out so far.
pub struct World {
    pub log: LoggerView,
    pub emissions: Seq<EmissionView>,
    pub issued: Seq<Issued>,
}

impl World {
    /// A logger before any caller has come.
    pub open spec fn fresh(log: LoggerView) -> World {
        World { log, emissions: Seq::empty(), issued: Seq::empty() }
    }

    /// Whether a move keeps to the protocol: an answer comes from a caller
    /// that exists, and answers the request that this caller holds.
    pub open spec fn admits(self, m: Move) -> bool {
        match m {
            Move::Start(_) => true,
            Move::Answer(k, reply) => 0 <= k < self.emissions.len() && self.emissions[k].expects(
                reply,
            ),
        }
    }

    /// The world after one move.
    pub open spec fn after(self, m: Move) -> World {
        match m {
            Move::Start(signpost) => {
                let step = EmissionView::resolve(self.log, signpost);
                World {
                    log: step.log,
                    emissions: self.emissions.push(step.emission),
                    issued: self.issued.push(
                        Issued { to: self.emissions.len() as int, request: step.request },
                    ),
                }
            },
            Move::Answer(k, reply) => {
                if 0 <= k < self.emissions.len() {
                    let step = self.emissions[k].step(self.log, reply);
                    World {
                        log: step.log,
                        emissions: self.emissions.update(k, step.emission),
                        issued: self.issued.push(Issued { to: k, request: step.request }),
                    }
                } else {
                    self
                }
            },
        }
    }

    /// The world after the first `n` of `moves`.
    pub open spec fn after_moves(self, moves: Seq<Move>, n: nat) -> World
        decreases n,
    {
        if n == 0 || n > moves.len() {
            self
        } else {
            self.after_moves(moves, (n - 1) as nat).after(moves[n - 1])
        }
    }

    /// Whether every one of `moves` keeps to the protocol when its turn
    /// comes.
    pub open spec fn conforming(self, moves: Seq<Move>) -> bool {
        forall|n: nat| n < moves.len() ==> #[trigger] self.after_moves(moves, n).admits(moves[n as int])
    }

    /// How often the creation of a handle was asked for.
    pub open spec fn creations(self) -> nat {
        count_creations(self.issued)
    }
}

/// The number of requests to create a handle among `issued`.
pub open spec fn count_creations(issued: Seq<Issued>) -> nat
    decreases issued.len(),
{
    if issued.len() == 0 {
        0
    } else {
        let rest = count_creations(issued.drop_last());
        if issued.last().request is CreateHandle {
            rest + 1
        } else {
            rest
        }
    }
}

/// The handle that a request is about, if it is about one.
pub open spec fn handle_of(request: RequestView) -> Option<Handle> {
    match request {
        RequestView::IsEnabled { handle } => Some(handle),
        RequestView::Emit { handle, .. } => Some(handle),
        _ => None,
    }
}

/// What ties the requests handed out so far to the state of the logger
/// with a backend that they were handed out on.
pub open spec fn consistent(world: World, origin: LoggerView) -> bool {
    &&& world.log.available
    &&& world.log.subsystem == origin.subsystem
    &&& world.log.category == origin.category
    &&& world.log.gate == Gate::Uninitialized ==> world.issued.len() == 0 && world.emissions.len()
        == 0
    &&& world.log.gate != Gate::Uninitialized ==> world.creations() == 1
    &&& forall|k: int|
        0 <= k < world.emissions.len() && (#[trigger] world.emissions[k]).stage is Checking
            ==> world.log.gate == Gate::Ready(world.emissions[k].stage->Checking_0)
    &&& forall|i: int|
        0 <= i < world.issued.len() && handle_of((#[trigger] world.issued[i]).request) is Some
            ==> world.log.gate == Gate::Ready(handle_of(world.issued[i].request).unwrap())
    &&& forall|i: int|
        0 <= i < world.issued.len() ==> 0 <= (#[trigger] world.issued[i]).to
            < world.emissions.len()
    &&& forall|i: int|
        0 <= i < world.issued.len() && (#[trigger] world.issued[i]).request is CreateHandle
            ==> world.issued[i].request == (RequestView::CreateHandle {
            subsystem: origin.subsystem,
            category: origin.category,
        })
    &&& forall|i: int|
        0 <= i < world.issued.len() && (#[trigger] world.issued[i]).request is Emit ==> {
            &&& world.emissions[world.issued[i].to].stage == Stage::Finished
            &&& world.issued[i].request->Emit_signpost
                == world.emissions[world.issued[i].to].signpost
        }
    &&& forall|i: int, j: int|
        0 <= i < j < world.issued.len() && (#[trigger] world.issued[i]).request is Emit && (
        #[trigger] world.issued[j]).request is Emit ==> world.issued[i].to != world.issued[j].to
}

proof fn lemma_count_push(issued: Seq<Issued>, next: Issued)
    ensures
        count_creations(issued.push(next)) == count_creations(issued) + (if next.request
            is CreateHandle {
            1nat
        } else {
            0nat
        }),
{
    assert(issued.push(next).drop_last() =~= issued);
}

proof fn lemma_move_keeps_consistent(world: World, origin: LoggerView, m: Move)
    requires
        consistent(world, origin),
        world.admits(m),
    ensures
        consistent(world.after(m), origin),
{
    let next = world.after(m);
    match m {
        Move::Start(signpost) => {
            let step = EmissionView::resolve(world.log, signpost);
            let k = world.emissions.len() as int;
            lemma_count_push(world.issued, Issued { to: k, request: step.request });
            assert(next.emissions[k] == step.emission);
            assert forall|i: int| 0 <= i < next.issued.len() implies 0 <= (
            #[trigger] next.issued[i]).to < next.emissions.len() by {
                if i < world.issued.len() {
                    assert(next.issued[i] == world.issued[i]);
                }
            }
            assert forall|i: int|
                0 <= i < next.issued.len() && (#[trigger] next.issued[i]).request is Emit implies {
                &&& next.emissions[next.issued[i].to].stage == Stage::Finished
                &&& next.issued[i].request->Emit_signpost
                    == next.emissions[next.issued[i].to].signpost
            } by {
                assert(next.issued[i] == world.issued[i]);
            }
            assert forall|i: int, j: int|
                0 <= i < j < next.issued.len() && (#[trigger] next.issued[i]).request is Emit && (
                #[trigger] next.issued[j]).request is Emit implies next.issued[i].to
                != next.issued[j].to by {
                assert(next.issued[i] == world.issued[i]);
                assert(next.issued[j] == world.issued[j]);
            }
            assert forall|i: int|
                0 <= i < next.issued.len() && handle_of((#[trigger] next.issued[i]).request)
                    is Some implies next.log.gate == Gate::Ready(
                handle_of(next.issued[i].request).unwrap(),
            ) by {
                if i < world.issued.len() {
                    assert(next.issued[i] == world.issued[i]);
                }
            }
            assert forall|i: int|
                0 <= i < next.issued.len() && (#[trigger] next.issued[i]).request
                    is CreateHandle implies next.issued[i].request == (RequestView::CreateHandle {
                subsystem: origin.subsystem,
                category: origin.category,
            }) by {
                if i < world.issued.len() {
                    assert(next.issued[i] == world.issued[i]);
                }
            }
        },
        Move::Answer(k, reply) => {
            let step = world.emissions[k].step(world.log, reply);
            lemma_count_push(world.issued, Issued { to: k, request: step.request });
            assert forall|i: int| 0 <= i < next.issued.len() implies 0 <= (
            #[trigger] next.issued[i]).to < next.emissions.len() by {
                if i < world.issued.len() {
                    assert(next.issued[i] == world.issued[i]);
                }
            }
            assert forall|i: int|
                0 <= i < next.issued.len() && (#[trigger] next.issued[i]).request is Emit implies {
                &&& next.emissions[next.issued[i].to].stage == Stage::Finished
                &&& next.issued[i].request->Emit_signpost
                    == next.emissions[next.issued[i].to].signpost
            } by {
                if i < world.issued.len() {
                    assert(next.issued[i] == world.issued[i]);
                }
            }
            assert forall|i: int, j: int|
                0 <= i < j < next.issued.len() && (#[trigger] next.issued[i]).request is Emit && (
                #[trigger] next.issued[j]).request is Emit implies next.issued[i].to
                != next.issued[j].to by {
                assert(next.issued[i] == world.issued[i]);
                if j < world.issued.len() {
                    assert(next.issued[j] == world.issued[j]);
                }
            }
            assert forall|i: int|
                0 <= i < next.issued.len() && handle_of((#[trigger] next.issued[i]).request)
                    is Some implies next.log.gate == Gate::Ready(
                handle_of(next.issued[i].request).unwrap(),
            ) by {
                if i < world.issued.len() {
                    assert(next.issued[i] == world.issued[i]);
                }
            }
            assert forall|i: int|
                0 <= i < next.issued.len() && (#[trigger] next.issued[i]).request
                    is CreateHandle implies next.issued[i].request == (RequestView::CreateHandle {
                subsystem: origin.subsystem,
                category: origin.category,
            }) by {
                if i < world.issued.len() {
                    assert(next.issued[i] == world.issued[i]);
                }
            }
        },
    }
}

proof fn lemma_moves_keep_consistent(origin: LoggerView, moves: Seq<Move>, n: nat)
    requires
        origin.available,
        origin.gate == Gate::Uninitialized,
        World::fresh(origin).conforming(moves),
        n <= moves.len(),
    ensures
        consistent(World::fresh(origin).after_moves(moves, n), origin),
    decreases n,
{
    if n > 0 {
        let before = (n - 1) as nat;
        lemma_moves_keep_consistent(origin, moves, before);
        assert(World::fresh(origin).after_moves(moves, before).admits(moves[before as int]));
        lemma_move_keeps_consistent(
            World::fresh(origin).after_moves(moves, before),
            origin,
            moves[before as int],
        );
    }
}

/// Single initialization: on a logger with a backend that nobody has used
/// yet, let any number of callers start emissions and answer their
/// requests in any order. Then the creation of the handle is asked for
/// exactly once if anybody came at all, under the logger's subsystem and
/// category, and every request that names a handle names the same one.
pub proof fn lemma_one_creation_one_handle(origin: LoggerView, moves: Seq<Move>)
    requires
        origin.available,
        origin.gate == Gate::Uninitialized,
        World::fresh(origin).conforming(moves),
    ensures
        World::fresh(origin).after_moves(moves, moves.len()).creations() == (if moves.len() == 0 {
            0nat
        } else {
            1nat
        }),
        forall|i: int|
            #![trigger World::fresh(origin).after_moves(moves, moves.len()).issued[i]]
            0 <= i < World::fresh(origin).after_moves(moves, moves.len()).issued.len()
                && World::fresh(origin).after_moves(moves, moves.len()).issued[i].request
                is CreateHandle ==> World::fresh(origin).after_moves(
                moves,
                moves.len(),
            ).issued[i].request == (RequestView::CreateHandle {
                subsystem: origin.subsystem,
                category: origin.category,
            }),
        forall|i: int, j: int|
            #![trigger
                World::fresh(origin).after_moves(moves, moves.len()).issued[i],
                World::fresh(origin).after_moves(moves, moves.len()).issued[j],
            ]
            0 <= i < World::fresh(origin).after_moves(moves, moves.len()).issued.len() && 0 <= j
                < World::fresh(origin).after_moves(moves, moves.len()).issued.len() && handle_of(
                World::fresh(origin).after_moves(moves, moves.len()).issued[i].request,
            ) is Some && handle_of(
                World::fresh(origin).after_moves(moves, moves.len()).issued[j].request,
            ) is Some ==> handle_of(
                World::fresh(origin).after_moves(moves, moves.len()).issued[i].request,
            ) == handle_of(World::fresh(origin).after_moves(moves, moves.len()).issued[j].request),
{
    let end = World::fresh(origin).after_moves(moves, moves.len());
    lemma_moves_keep_consistent(origin, moves, moves.len());
    if moves.len() > 0 {
        let before = World::fresh(origin).after_moves(moves, (moves.len() - 1) as nat);
        lemma_moves_keep_consistent(origin, moves, (moves.len() - 1) as nat);
        assert(before.admits(moves[moves.len() - 1]));
        assert(end.issued.len() > 0);
    } else {
        assert(end.issued.len() == 0);
    }
}

/// Exactly-once emission: in any line of moves that keep to the protocol,
/// no emission has its record handed out for emission twice, and the
/// record handed out is the one that the emission was started with.
pub proof fn lemma_no_record_twice(origin: LoggerView, moves: Seq<Move>, i: int, j: int)
    requires
        origin.available,
        origin.gate == Gate::Uninitialized,
        World::fresh(origin).conforming(moves),
        0 <= i < j < World::fresh(origin).after_moves(moves, moves.len()).issued.len(),
        World::fresh(origin).after_moves(moves, moves.len()).issued[i].request is Emit,
        World::fresh(origin).after_moves(moves, moves.len()).issued[j].request is Emit,
    ensures
        World::fresh(origin).after_moves(moves, moves.len()).issued[i].to != World::fresh(
            origin,
        ).after_moves(moves, moves.len()).issued[j].to,
{
    lemma_moves_keep_consistent(origin, moves, moves.len());
}

/// What holds of a world whose logger has no backend.
pub open spec fn silent(world: World, origin: LoggerView) -> bool {
    &&& world.log == origin
    &&& forall|k: int|
        0 <= k < world.emissions.len() ==> (#[trigger] world.emissions[k]).stage
            == Stage::Finished
    &&& forall|i: int|
        0 <= i < world.issued.len() ==> (#[trigger] world.issued[i]).request == RequestView::Done
}

proof fn lemma_moves_keep_silent(origin: LoggerView, moves: Seq<Move>, n: nat)
    requires
        !origin.available,
        n <= moves.len(),
    ensures
        silent(World::fresh(origin).after_moves(moves, n), origin),
    decreases n,
{
    if n > 0 {
        lemma_moves_keep_silent(origin, moves, (n - 1) as nat);
        let world = World::fresh(origin).after_moves(moves, (n - 1) as nat);
        let next = world.after(moves[n - 1]);
        assert forall|i: int| 0 <= i < next.issued.len() implies (#[trigger] next.issued[i]).request
            == RequestView::Done by {
            if i < world.issued.len() {
                assert(next.issued[i] == world.issued[i]);
            }
        }
        assert forall|k: int| 0 <= k < next.emissions.len() implies (
        #[trigger] next.emissions[k]).stage == Stage::Finished by {
            if k < world.emissions.len() {
                assert(world.emissions[k].stage == Stage::Finished);
            }
        }
    }
}

/// No-op safety: without a backend, whatever the callers do, with whatever
/// records and ids, and whether or not they keep to the protocol, no
/// backend primitive is ever asked for, and the logger stays as it was.
pub proof fn lemma_no_backend_no_request(origin: LoggerView, moves: Seq<Move>, i: int)
    requires
        !origin.available,
        0 <= i < World::fresh(origin).after_moves(moves, moves.len()).issued.len(),
    ensures
        World::fresh(origin).after_moves(moves, moves.len()).issued[i].request
            == RequestView::Done,
        World::fresh(origin).after_moves(moves, moves.len()).log == origin,
{
    lemma_moves_keep_silent(origin, moves, moves.len());
}

} // verus!
