//! A rebuild flag together with all the threads that it lets through.
//!
//! Callers and threads take turns in any order. What holds after every turn
//! is proved here from the flag and the threads alone.

use vstd::prelude::*;

use crate::flag_laws::FlagOp;
use crate::rebuild::{MainRebuildState, MainStage, RebuildEnd, Reply, Teardown};
use crate::rebuild_laws::MainAnswers;
use crate::window_recovery::MainFlagState;

verus! {

/// The rebuild flag of `main` and every thread that was ever started to
/// rebuild it, in the order in which they were started.
pub struct MainSystem<R> {
    pub flag: MainFlagState<R>,
    pub threads: Seq<MainRebuildState<R>>,
}

/// One turn of a caller or a thread.
pub enum MainTurn<R> {
    /// A caller dispatches a rebuild for a request.
    Dispatch(Option<R>),
    /// A caller finds a rebuild in flight and hands its request over.
    HandOver(Option<R>),
    /// A thread learns what came of its work.
    Answer(int, Reply<Seq<char>>),
    /// A thread frees the flag and takes over the requests that wait with it.
    Free(int),
}

impl<R> MainSystem<R> {
    /// Before the first turn.
    pub open spec fn initial() -> Self {
        MainSystem { flag: MainFlagState::clear(), threads: Seq::empty() }
    }

    /// Whether thread `i` holds the rebuild flag.
    pub open spec fn holds(self, i: int) -> bool {
        0 <= i < self.threads.len() && crate::rebuild_laws::main_holds_flag(self.threads[i].stage)
    }

    /// The flag is set exactly when a thread holds it, no two threads hold
    /// it, and no request waits while it is clear.
    pub open spec fn inv(self) -> bool {
        &&& self.flag.in_flight <==> exists|i: int| self.holds(i)
        &&& forall|i: int, j: int| #[trigger] self.holds(i) && #[trigger] self.holds(j) ==> i == j
        &&& self.flag.wf()
    }

    /// Whether the turn can be taken: requests are handed over only to a
    /// rebuild in flight, answers are answers to the thread's own question,
    /// and a thread frees the flag only where its work is at that point.
    pub open spec fn enabled(self, turn: MainTurn<R>) -> bool {
        match turn {
            MainTurn::Dispatch(_) => true,
            MainTurn::HandOver(_) => self.flag.in_flight,
            MainTurn::Answer(i, reply) => 0 <= i < self.threads.len()
                && crate::rebuild_laws::answers_main(self.threads[i].stage, reply),
            MainTurn::Free(i) => 0 <= i < self.threads.len() && self.threads[i].stage is ClearFlag,
        }
    }

    /// The system after a turn.
    pub open spec fn after(self, turn: MainTurn<R>) -> Self {
        match turn {
            MainTurn::Dispatch(request) => MainSystem {
                flag: self.flag.begun(),
                threads: if self.flag.in_flight {
                    self.threads
                } else {
                    self.threads.push(MainRebuildState::initial(request))
                },
            },
            MainTurn::HandOver(request) => MainSystem {
                flag: self.flag.joined_by(request),
                ..self
            },
            MainTurn::Answer(i, reply) => MainSystem {
                threads: self.threads.update(i, self.threads[i].after(reply)),
                ..self
            },
            MainTurn::Free(i) => MainSystem {
                flag: MainFlagState::clear(),
                threads: self.threads.update(
                    i,
                    self.threads[i].after_flag_freed(self.flag.waiting),
                ),
            },
        }
    }

    /// The system after a sequence of turns.
    pub open spec fn after_all(self, turns: Seq<MainTurn<R>>) -> Self
        decreases turns.len(),
    {
        if turns.len() == 0 {
            self
        } else {
            self.after_all(turns.drop_last()).after(turns.last())
        }
    }

    /// Whether each of the turns can be taken when it comes.
    pub open spec fn possible(self, turns: Seq<MainTurn<R>>) -> bool
        decreases turns.len(),
    {
        turns.len() > 0 ==> {
            &&& self.possible(turns.drop_last())
            &&& self.after_all(turns.drop_last()).enabled(turns.last())
        }
    }
}

/// Every turn keeps the invariant of the system.
pub proof fn every_turn_keeps_one_holder<R>(system: MainSystem<R>, turn: MainTurn<R>)
    requires
        system.inv(),
        system.enabled(turn),
    ensures
        system.after(turn).inv(),
{
    let next = system.after(turn);
    match turn {
        MainTurn::Dispatch(_) => {
            if system.flag.in_flight {
                assert(forall|i: int| next.holds(i) <==> system.holds(i));
            } else {
                let new = system.threads.len() as int;
                assert forall|i: int| next.holds(i) <==> i == new by {
                    if next.holds(i) && i != new {
                        assert(system.holds(i));
                    }
                }
                assert(next.holds(new));
            }
        },
        MainTurn::HandOver(_) => {
            assert(forall|i: int| next.holds(i) <==> system.holds(i));
        },
        MainTurn::Answer(k, reply) => {
            crate::rebuild_laws::every_answer_advances_main(system.threads[k], reply);
            assert forall|i: int| next.holds(i) <==> system.holds(i) by {}
            if system.flag.in_flight {
                let i = choose|i: int| system.holds(i);
                assert(next.holds(i));
            }
        },
        MainTurn::Free(k) => {
            crate::rebuild_laws::freeing_the_flag_advances_main(
                system.threads[k],
                system.flag.waiting,
            );
            assert(system.holds(k));
            assert forall|i: int| !next.holds(i) by {
                if next.holds(i) {
                    assert(system.holds(i));
                }
            }
        },
    }
}

proof fn lemma_inv_after_all<R>(system: MainSystem<R>, turns: Seq<MainTurn<R>>)
    requires
        system.inv(),
        system.possible(turns),
    ensures
        system.after_all(turns).inv(),
    decreases turns.len(),
{
    if turns.len() > 0 {
        lemma_inv_after_all(system, turns.drop_last());
        every_turn_keeps_one_holder(system.after_all(turns.drop_last()), turns.last());
    }
}

/// Rebuilds of `main` never overlap. Whatever turns callers and threads take,
/// and in whatever order: the flag is set exactly when a thread is at work on
/// a rebuild, no two threads are, and no request waits while it is clear.
pub proof fn main_rebuilds_never_overlap<R>(turns: Seq<MainTurn<R>>)
    requires
        MainSystem::<R>::initial().possible(turns),
    ensures
        MainSystem::<R>::initial().after_all(turns).inv(),
{
    lemma_inv_after_all(MainSystem::<R>::initial(), turns);
}

/// What the turns do to the flag.
pub open spec fn flag_ops<R>(turns: Seq<MainTurn<R>>) -> Seq<FlagOp>
    decreases turns.len(),
{
    if turns.len() == 0 {
        Seq::empty()
    } else {
        let before = flag_ops(turns.drop_last());
        match turns.last() {
            MainTurn::Dispatch(_) => before.push(FlagOp::Begin),
            MainTurn::Free(_) => before.push(FlagOp::Finish),
            _ => before,
        }
    }
}

/// Only a thread that holds the flag of `main` ever frees it, and the flag is
/// what the operations on it make of it. So as many rebuilds have started as
/// have finished, and one more while the flag is set.
pub proof fn main_flag_is_freed_by_its_holder<R>(turns: Seq<MainTurn<R>>)
    requires
        MainSystem::<R>::initial().possible(turns),
    ensures
        crate::flag_laws::freed_by_holders(false, flag_ops(turns)),
        crate::flag_laws::flag_after(false, flag_ops(turns))
            == MainSystem::<R>::initial().after_all(turns).flag.in_flight,
        crate::flag_laws::starts(false, flag_ops(turns))
            == MainSystem::<R>::initial().after_all(turns).threads.len(),
        crate::flag_laws::starts(false, flag_ops(turns)) - crate::flag_laws::finishes(
            flag_ops(turns),
        ) == if MainSystem::<R>::initial().after_all(turns).flag.in_flight {
            1int
        } else {
            0
        },
    decreases turns.len(),
{
    let start = MainSystem::<R>::initial();
    if turns.len() > 0 {
        let shorter = turns.drop_last();
        main_flag_is_freed_by_its_holder(shorter);
        main_rebuilds_never_overlap(shorter);
        let system = start.after_all(shorter);
        match turns.last() {
            MainTurn::Dispatch(_) => {
                assert(flag_ops(turns).drop_last() =~= flag_ops(shorter));
            },
            MainTurn::Free(k) => {
                assert(flag_ops(turns).drop_last() =~= flag_ops(shorter));
                assert(system.holds(k));
            },
            _ => {},
        }
    }
    crate::flag_laws::the_flag_counts_its_rebuilds(flag_ops(turns));
}

/// The requests that are handed over in a sequence of turns.
pub open spec fn handed_over<R>(turns: Seq<MainTurn<R>>) -> Seq<R>
    decreases turns.len(),
{
    if turns.len() == 0 {
        Seq::empty()
    } else {
        match turns.last() {
            MainTurn::HandOver(Some(request)) => handed_over(turns.drop_last()).push(request),
            _ => handed_over(turns.drop_last()),
        }
    }
}

/// While thread `h` holds the flag and nobody frees it, what is handed over
/// waits with the flag in order, and the thread keeps its own request.
proof fn lemma_handed_over_waits<R>(system: MainSystem<R>, turns: Seq<MainTurn<R>>, h: int)
    requires
        system.inv(),
        system.holds(h),
        system.possible(turns),
        forall|i: int| 0 <= i < turns.len() ==> #[trigger] turns[i] !is Free,
    ensures
        system.after_all(turns).holds(h),
        system.after_all(turns).flag.in_flight,
        system.after_all(turns).flag.waiting == system.flag.waiting + handed_over(turns),
        system.after_all(turns).threads[h].request == system.threads[h].request,
    decreases turns.len(),
{
    if turns.len() > 0 {
        let shorter = turns.drop_last();
        assert forall|i: int| 0 <= i < shorter.len() implies #[trigger] shorter[i] !is Free by {
            assert(shorter[i] == turns[i]);
        }
        lemma_handed_over_waits(system, shorter, h);
        let before = system.after_all(shorter);
        assert(turns[turns.len() - 1] !is Free);
        match turns.last() {
            MainTurn::Answer(k, reply) => {
                crate::rebuild_laws::every_answer_advances_main(before.threads[k], reply);
            },
            _ => {},
        }
        assert(system.after_all(turns).flag.waiting =~= system.flag.waiting + handed_over(turns));
    } else {
        assert(system.flag.waiting + handed_over(turns) =~= system.flag.waiting);
    }
}

/// A request handed over to a rebuild in flight that succeeds is replayed by
/// it exactly once, after its flag was freed.
///
/// Take any state that turns can lead to with the flag clear, a dispatch for
/// `request`, any further turns up to the point where the flag is freed, and
/// the thread of that dispatch at that point after a success. What it then
/// replays is `request`, if there is one, and after it every request that was
/// handed over since, in order and each once, whatever comes of each replay;
/// and no request is left behind with the flag.
pub proof fn a_request_handed_over_is_replayed_once<R>(
    earlier: Seq<MainTurn<R>>,
    request: Option<R>,
    turns: Seq<MainTurn<R>>,
    answers: MainAnswers<R>,
)
    requires
        MainSystem::<R>::initial().possible(earlier),
        !MainSystem::<R>::initial().after_all(earlier).flag.in_flight,
        ({
            let clear = MainSystem::<R>::initial().after_all(earlier);
            let begun = clear.after(MainTurn::Dispatch(request));
            let thread = clear.threads.len() as int;
            &&& begun.possible(turns)
            &&& begun.after_all(turns).threads[thread].stage matches MainStage::ClearFlag(Ok(_))
        }),
        forall|i: int| 0 <= i < turns.len() ==> #[trigger] turns[i] !is Free,
    ensures
        ({
            let clear = MainSystem::<R>::initial().after_all(earlier);
            let thread = clear.threads.len() as int;
            let done = clear.after(MainTurn::Dispatch(request)).after_all(turns);
            let freed = done.after(MainTurn::Free(thread));
            let due = crate::rebuild::to_replay(request, handed_over(turns));
            let run = answers.run(freed.threads[thread]);
            &&& done.enabled(MainTurn::Free(thread))
            &&& freed.flag == MainFlagState::<R>::clear()
            &&& crate::rebuild_laws::replays(run) == due
            &&& run == crate::rebuild_laws::replay_stages(due) + seq![
                MainStage::Closed(RebuildEnd::Rebuilt),
            ]
        }),
{
    let clear = MainSystem::<R>::initial().after_all(earlier);
    let begun = clear.after(MainTurn::Dispatch(request));
    let thread = clear.threads.len() as int;
    main_rebuilds_never_overlap(earlier);
    every_turn_keeps_one_holder(clear, MainTurn::Dispatch(request));
    assert(begun.holds(thread));
    lemma_handed_over_waits(begun, turns, thread);
    let done = begun.after_all(turns);
    assert(done.flag.waiting =~= handed_over(turns));
    let due = crate::rebuild::to_replay(request, handed_over(turns));
    let freed = done.after(MainTurn::Free(thread));
    assert(freed.threads[thread] == MainRebuildState::replaying(due));
    crate::rebuild_laws::replays_run_in_turn(answers, due);
}

/// The rebuild flag of a window that is built on demand, and every thread
/// that was ever started to tear it down.
pub struct TeardownSystem<P> {
    pub in_flight: bool,
    pub threads: Seq<Teardown<P, Seq<char>>>,
}

/// One turn of a caller or a thread.
pub enum TeardownTurn<P> {
    /// A caller dispatches a teardown, and how to reopen the window.
    Dispatch(Option<P>),
    /// A thread learns what came of its work.
    Answer(int, Reply<Seq<char>>),
    /// A thread frees the flag.
    Free(int),
}

impl<P> TeardownSystem<P> {
    /// Before the first turn.
    pub open spec fn initial() -> Self {
        TeardownSystem { in_flight: false, threads: Seq::empty() }
    }

    /// Whether thread `i` holds the rebuild flag.
    pub open spec fn holds(self, i: int) -> bool {
        0 <= i < self.threads.len() && crate::rebuild_laws::teardown_holds_flag(
            self.threads[i].stage,
        )
    }

    /// The flag is set exactly when a thread holds it, and no two threads do.
    pub open spec fn inv(self) -> bool {
        &&& self.in_flight <==> exists|i: int| self.holds(i)
        &&& forall|i: int, j: int| #[trigger] self.holds(i) && #[trigger] self.holds(j) ==> i == j
    }

    /// Whether the turn can be taken.
    pub open spec fn enabled(self, turn: TeardownTurn<P>) -> bool {
        match turn {
            TeardownTurn::Dispatch(_) => true,
            TeardownTurn::Answer(i, reply) => {
                &&& 0 <= i < self.threads.len()
                &&& self.threads[i].stage !is ClearFlag
                &&& crate::rebuild_laws::answers_teardown(self.threads[i].stage, reply)
            },
            TeardownTurn::Free(i) => 0 <= i < self.threads.len()
                && self.threads[i].stage is ClearFlag,
        }
    }

    /// The system after a turn.
    pub open spec fn after(self, turn: TeardownTurn<P>) -> Self {
        match turn {
            TeardownTurn::Dispatch(reopen) => TeardownSystem {
                in_flight: true,
                threads: if self.in_flight {
                    self.threads
                } else {
                    self.threads.push(Teardown::<P, Seq<char>>::initial(reopen))
                },
            },
            TeardownTurn::Answer(i, reply) => TeardownSystem {
                threads: self.threads.update(i, self.threads[i].after(reply)),
                ..self
            },
            TeardownTurn::Free(i) => TeardownSystem {
                in_flight: false,
                threads: self.threads.update(i, self.threads[i].after(Reply::Done)),
            },
        }
    }

    /// The system after a sequence of turns.
    pub open spec fn after_all(self, turns: Seq<TeardownTurn<P>>) -> Self
        decreases turns.len(),
    {
        if turns.len() == 0 {
            self
        } else {
            self.after_all(turns.drop_last()).after(turns.last())
        }
    }

    /// Whether each of the turns can be taken when it comes.
    pub open spec fn possible(self, turns: Seq<TeardownTurn<P>>) -> bool
        decreases turns.len(),
    {
        turns.len() > 0 ==> {
            &&& self.possible(turns.drop_last())
            &&& self.after_all(turns.drop_last()).enabled(turns.last())
        }
    }
}

/// Every turn keeps the invariant of the system.
pub proof fn every_turn_keeps_one_teardown<P>(system: TeardownSystem<P>, turn: TeardownTurn<P>)
    requires
        system.inv(),
        system.enabled(turn),
    ensures
        system.after(turn).inv(),
{
    let next = system.after(turn);
    match turn {
        TeardownTurn::Dispatch(_) => {
            if system.in_flight {
                assert(forall|i: int| next.holds(i) <==> system.holds(i));
            } else {
                let new = system.threads.len() as int;
                assert forall|i: int| next.holds(i) <==> i == new by {
                    if next.holds(i) && i != new {
                        assert(system.holds(i));
                    }
                }
                assert(next.holds(new));
            }
        },
        TeardownTurn::Answer(k, reply) => {
            crate::rebuild_laws::every_answer_advances_a_teardown(system.threads[k], reply);
            assert forall|i: int| next.holds(i) <==> system.holds(i) by {}
            if system.in_flight {
                let i = choose|i: int| system.holds(i);
                assert(next.holds(i));
            }
        },
        TeardownTurn::Free(k) => {
            crate::rebuild_laws::every_answer_advances_a_teardown(
                system.threads[k],
                Reply::Done,
            );
            assert(system.holds(k));
            assert forall|i: int| !next.holds(i) by {
                if next.holds(i) {
                    assert(system.holds(i));
                }
            }
        },
    }
}

/// Teardowns of one window never overlap. Whatever turns callers and threads
/// take, and in whatever order: the flag is set exactly when a thread is at
/// work on a teardown, and no two threads are.
pub proof fn teardowns_never_overlap<P>(turns: Seq<TeardownTurn<P>>)
    requires
        TeardownSystem::<P>::initial().possible(turns),
    ensures
        TeardownSystem::<P>::initial().after_all(turns).inv(),
    decreases turns.len(),
{
    if turns.len() > 0 {
        teardowns_never_overlap(turns.drop_last());
        every_turn_keeps_one_teardown(
            TeardownSystem::<P>::initial().after_all(turns.drop_last()),
            turns.last(),
        );
    }
}

} // verus!
