//! What the rebuild flag guarantees to callers that race for it.

use vstd::prelude::*;

use crate::window_recovery::GuardAction;

verus! {

/// The two things that are done to a rebuild flag.
pub enum FlagOp {
    /// A caller sets it, and starts a rebuild if it was clear.
    Begin,
    /// A rebuild thread frees it.
    Finish,
}

/// The flag after a sequence of operations, in whatever order callers and
/// threads come to make them.
pub open spec fn flag_after(in_flight: bool, ops: Seq<FlagOp>) -> bool {
    if ops.len() == 0 {
        in_flight
    } else {
        ops.last() is Begin
    }
}

/// How many rebuilds the operations start.
pub open spec fn starts(in_flight: bool, ops: Seq<FlagOp>) -> nat
    decreases ops.len(),
{
    if ops.len() == 0 {
        0
    } else {
        starts(in_flight, ops.drop_last()) + if ops.last() is Begin && !flag_after(
            in_flight,
            ops.drop_last(),
        ) {
            1nat
        } else {
            0
        }
    }
}

pub(crate) proof fn lemma_one_operation(in_flight: bool, op: FlagOp)
    ensures
        starts(in_flight, seq![op]) == if op is Begin && !in_flight {
            1nat
        } else {
            0
        },
{
    assert(seq![op].drop_last() =~= Seq::<FlagOp>::empty());
    reveal_with_fuel(starts, 2);
}

/// How many times the operations free the flag.
pub open spec fn finishes(ops: Seq<FlagOp>) -> nat
    decreases ops.len(),
{
    if ops.len() == 0 {
        0
    } else {
        finishes(ops.drop_last()) + if ops.last() is Finish {
            1nat
        } else {
            0
        }
    }
}

/// Whether the flag is freed only by a thread that holds it.
pub open spec fn freed_by_holders(in_flight: bool, ops: Seq<FlagOp>) -> bool
    decreases ops.len(),
{
    ops.len() > 0 ==> {
        &&& freed_by_holders(in_flight, ops.drop_last())
        &&& ops.last() is Finish ==> flag_after(in_flight, ops.drop_last())
    }
}

/// Where the flag is freed only by the thread that holds it, the rebuilds that
/// have started and not finished are one while the flag is set and none while
/// it is clear.
pub proof fn the_flag_counts_its_rebuilds(ops: Seq<FlagOp>)
    requires
        freed_by_holders(false, ops),
    ensures
        starts(false, ops) - finishes(ops) == if flag_after(false, ops) {
            1int
        } else {
            0
        },
    decreases ops.len(),
{
    if ops.len() > 0 {
        the_flag_counts_its_rebuilds(ops.drop_last());
    }
}

/// However callers race, a window is rebuilt again only after its flag was
/// freed.
pub proof fn each_further_rebuild_needs_a_freed_flag(in_flight: bool, ops: Seq<FlagOp>)
    ensures
        starts(in_flight, ops) + (if in_flight {
            1nat
        } else {
            0
        }) <= finishes(ops) + (if flag_after(in_flight, ops) {
            1nat
        } else {
            0
        }),
    decreases ops.len(),
{
    if ops.len() > 0 {
        each_further_rebuild_needs_a_freed_flag(in_flight, ops.drop_last());
    }
}

/// What a caller finds of a window it is about to show.
pub struct Click {
    pub exists: bool,
    pub alive: bool,
}

/// Whether a click finds a window that is missing or dead.
pub open spec fn unusable(click: Click) -> bool {
    !(click.exists && click.alive)
}

/// Whether a click leads to a rebuild.
pub open spec fn rebuilds(in_flight: bool, click: Click) -> bool {
    crate::window_recovery::guarded(click.exists, click.alive, in_flight) == GuardAction::Rebuild
}

/// How many rebuilds a burst of clicks starts while none of them finishes.
pub open spec fn burst_starts(in_flight: bool, clicks: Seq<Click>) -> nat
    decreases clicks.len(),
{
    if clicks.len() == 0 {
        0
    } else if rebuilds(in_flight, clicks[0]) {
        1 + burst_starts(true, clicks.skip(1))
    } else {
        burst_starts(in_flight, clicks.skip(1))
    }
}

/// A burst of clicks queues one recovery: none while a rebuild is in flight or
/// the window is usable throughout, and a single one otherwise.
pub proof fn a_burst_of_clicks_queues_one_recovery(in_flight: bool, clicks: Seq<Click>)
    ensures
        burst_starts(in_flight, clicks) == if !in_flight && exists|i: int|
            0 <= i < clicks.len() && unusable(#[trigger] clicks[i]) {
            1nat
        } else {
            0
        },
    decreases clicks.len(),
{
    if clicks.len() > 0 {
        let rest = clicks.skip(1);
        a_burst_of_clicks_queues_one_recovery(true, rest);
        a_burst_of_clicks_queues_one_recovery(in_flight, rest);
        if exists|i: int| 0 <= i < clicks.len() && unusable(#[trigger] clicks[i]) {
            let i = choose|i: int| 0 <= i < clicks.len() && unusable(#[trigger] clicks[i]);
            if i > 0 {
                assert(rest[i - 1] == clicks[i]);
            }
        }
        if exists|i: int| 0 <= i < rest.len() && unusable(#[trigger] rest[i]) {
            let i = choose|i: int| 0 <= i < rest.len() && unusable(#[trigger] rest[i]);
            assert(clicks[i + 1] == rest[i]);
        }
    }
}

} // verus!
