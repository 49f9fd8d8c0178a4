//! What rebuild threads do, whatever comes of their work.

use vstd::prelude::*;

use crate::rebuild::{
    MainRebuild, MainRebuildState, MainStage, RebuildEnd, Reply, Teardown, TeardownStage,
};
use crate::window_recovery::{GuardAction, SurfaceSnapshot};

verus! {

/// Whether `reply` answers the stage of a thread that rebuilds `main`.
pub open spec fn answers_main<R>(
    stage: MainStage<R, Seq<char>>,
    reply: Reply<Seq<char>>,
) -> bool {
    match stage {
        MainStage::FindWindow | MainStage::ReadConfig => reply is Found,
        MainStage::Watch | MainStage::DarkenCaption => reply is Done,
        MainStage::ClearFlag(_) | MainStage::Closed(_) => false,
        _ => reply is Outcome,
    }
}

/// How far a thread that rebuilds `main` is from its end.
pub open spec fn main_distance<R>(stage: MainStage<R, Seq<char>>) -> nat {
    match stage {
        MainStage::FindWindow => 9,
        MainStage::DestroyAndRelease => 8,
        MainStage::ReadConfig => 7,
        MainStage::Build => 6,
        MainStage::Watch => 5,
        MainStage::DarkenCaption => 4,
        MainStage::Hide => 3,
        MainStage::ClearFlag(_) => 2,
        MainStage::Replay(_) => 1,
        MainStage::Closed(_) => 0,
    }
}

/// Whether a thread that rebuilds `main` still holds the rebuild flag.
pub open spec fn main_holds_flag<R>(stage: MainStage<R, Seq<char>>) -> bool {
    stage !is Replay && stage !is Closed
}

/// Every answer brings the thread nearer to its end, or from one replay to
/// the next with one fewer left to do, and leaves the flag as it was: held
/// up to the point where it is freed, and never again after that.
pub proof fn every_answer_advances_main<R>(
    thread: MainRebuildState<R>,
    reply: Reply<Seq<char>>,
)
    requires
        answers_main(thread.stage, reply),
    ensures
        ({
            let next = thread.after(reply);
            ||| main_distance(next.stage) < main_distance(thread.stage)
            ||| next.stage is Replay && thread.stage is Replay && next.waiting.len()
                < thread.waiting.len()
        }),
        main_holds_flag(thread.after(reply).stage) <==> main_holds_flag(thread.stage),
{
}

/// Freeing the flag brings the thread nearer to its end, and the thread does
/// not hold the flag after that, whatever requests it takes over.
pub proof fn freeing_the_flag_advances_main<R>(thread: MainRebuildState<R>, waiting: Seq<R>)
    requires
        thread.stage is ClearFlag,
    ensures
        main_distance(thread.after_flag_freed(waiting).stage) < main_distance(thread.stage),
        !main_holds_flag(thread.after_flag_freed(waiting).stage),
{
}

/// What comes of each piece of work of one rebuild of `main`.
#[verifier::reject_recursive_types(R)]
pub struct MainAnswers<R> {
    /// Whether a window has the label.
    pub found: bool,
    /// What comes of destroying it and waiting for its label.
    pub released: Result<(), Seq<char>>,
    /// Whether `main` is declared.
    pub declared: bool,
    pub built: Result<(), Seq<char>>,
    pub hidden: Result<(), Seq<char>>,
    /// The requests that wait with the flag when it is freed.
    pub waiting: Seq<R>,
    /// What comes of replaying a request.
    pub replayed: spec_fn(R) -> Result<(), Seq<char>>,
}

/// The stages of replaying `requests` in turn.
pub open spec fn replay_stages<R>(requests: Seq<R>) -> Seq<MainStage<R, Seq<char>>> {
    requests.map_values(|request: R| MainStage::<R, Seq<char>>::Replay(request))
}

/// The requests that a run replays, in order, each as often as it does.
pub open spec fn replays<R>(run: Seq<MainStage<R, Seq<char>>>) -> Seq<R>
    decreases run.len(),
{
    if run.len() == 0 {
        Seq::empty()
    } else {
        match run[0] {
            MainStage::Replay(request) => seq![request] + replays(run.skip(1)),
            _ => replays(run.skip(1)),
        }
    }
}

/// How often the flag is freed in a run.
pub open spec fn main_frees<R>(run: Seq<MainStage<R, Seq<char>>>) -> int
    decreases run.len(),
{
    if run.len() == 0 {
        0
    } else {
        main_frees(run.skip(1)) + if run[0] is ClearFlag {
            1int
        } else {
            0
        }
    }
}

impl<R> MainAnswers<R> {
    /// The thread after the work of its stage.
    pub open spec fn next(self, thread: MainRebuildState<R>) -> MainRebuildState<R> {
        match thread.stage {
            MainStage::FindWindow => thread.after(Reply::Found(self.found)),
            MainStage::DestroyAndRelease => thread.after(Reply::Outcome(self.released)),
            MainStage::ReadConfig => thread.after(Reply::Found(self.declared)),
            MainStage::Build => thread.after(Reply::Outcome(self.built)),
            MainStage::Hide => thread.after(Reply::Outcome(self.hidden)),
            MainStage::Replay(request) => thread.after(Reply::Outcome((self.replayed)(request))),
            MainStage::ClearFlag(_) => thread.after_flag_freed(self.waiting),
            _ => thread.after(Reply::Done),
        }
    }

    /// Whether no window has the label any more when the building starts.
    pub open spec fn label_free(self) -> bool {
        self.found ==> self.released is Ok
    }

    /// What the rebuild comes to: the first failure, if there is one.
    pub open spec fn result(self) -> Result<(), Seq<char>> {
        if !self.label_free() {
            self.released
        } else if !self.declared {
            Err(crate::rebuild::no_declaration())
        } else if self.built is Err {
            self.built
        } else {
            self.hidden
        }
    }

    /// The work up to the point where the flag is freed: each piece only
    /// where everything before it has succeeded.
    pub open spec fn work(self) -> Seq<MainStage<R, Seq<char>>> {
        let none = Seq::<MainStage<R, Seq<char>>>::empty();
        seq![MainStage::FindWindow] + (if self.found {
            seq![MainStage::DestroyAndRelease]
        } else {
            none
        }) + (if self.label_free() {
            seq![MainStage::ReadConfig]
        } else {
            none
        }) + (if self.label_free() && self.declared {
            seq![MainStage::Build]
        } else {
            none
        }) + (if self.label_free() && self.declared && self.built is Ok {
            seq![MainStage::Watch, MainStage::DarkenCaption, MainStage::Hide]
        } else {
            none
        })
    }

    /// The requests that are replayed: none after a failure.
    pub open spec fn due(self, request: Option<R>) -> Seq<R> {
        if self.result() is Ok {
            crate::rebuild::to_replay(request, self.waiting)
        } else {
            Seq::empty()
        }
    }

    /// How the thread ends.
    pub open spec fn end(self) -> RebuildEnd<Seq<char>> {
        match self.result() {
            Err(error) => RebuildEnd::Failed(error),
            Ok(()) => RebuildEnd::Rebuilt,
        }
    }

    /// The stages that a thread goes through from `thread` on.
    pub open spec fn run(self, thread: MainRebuildState<R>) -> Seq<MainStage<R, Seq<char>>>
        decreases main_distance(thread.stage), thread.waiting.len(),
    {
        if thread.stage is Closed {
            seq![thread.stage]
        } else {
            seq![thread.stage] + self.run(self.next(thread))
        }
    }

    /// The stages of a whole rebuild of `main` that was started with
    /// `request`.
    pub open spec fn rebuild(self, request: Option<R>) -> Seq<MainStage<R, Seq<char>>> {
        self.run(MainRebuildState::initial(request))
    }
}

/// A thread that is about to replay requests replays them all in turn,
/// whatever comes of each, and is then at its end.
pub proof fn replays_run_in_turn<R>(answers: MainAnswers<R>, requests: Seq<R>)
    ensures
        answers.run(MainRebuildState::replaying(requests)) == replay_stages(requests)
            + seq![MainStage::Closed(RebuildEnd::Rebuilt)],
        replays(answers.run(MainRebuildState::replaying(requests))) == requests,
    decreases requests.len(),
{
    let thread = MainRebuildState::replaying(requests);
    if requests.len() > 0 {
        let rest = requests.skip(1);
        replays_run_in_turn(answers, rest);
        assert(answers.next(thread) == MainRebuildState::replaying(rest));
        assert(replay_stages(requests) =~= seq![
            MainStage::<R, Seq<char>>::Replay(requests[0]),
        ] + replay_stages(rest));
    }
    let end = seq![MainStage::<R, Seq<char>>::Closed(RebuildEnd::Rebuilt)];
    assert(answers.run(thread) =~= replay_stages(requests) + end);
    lemma_replays_of_concat(replay_stages(requests), end);
    lemma_replays_of_replay_stages(requests);
    lemma_no_replays(end);
    assert(requests + Seq::<R>::empty() =~= requests);
}

/// A thread that is about to free the flag.
proof fn lemma_run_from_clear_flag<R>(answers: MainAnswers<R>, request: Option<R>)
    ensures
        answers.run(
            MainRebuildState::initial(request).at(MainStage::ClearFlag(answers.result())),
        ) == seq![MainStage::ClearFlag(answers.result())] + replay_stages(answers.due(request))
            + seq![MainStage::Closed(answers.end())],
{
    let thread = MainRebuildState::initial(request).at(MainStage::ClearFlag(answers.result()));
    let next = answers.next(thread);
    if answers.result() is Ok {
        replays_run_in_turn(answers, answers.due(request));
        assert(next == MainRebuildState::replaying(answers.due(request)));
    } else {
        assert(replay_stages(answers.due(request)) =~= Seq::empty());
        assert(answers.run(next) == seq![next.stage]);
    }
    assert(answers.run(thread) =~= seq![MainStage::ClearFlag(answers.result())] + replay_stages(
        answers.due(request),
    ) + seq![MainStage::Closed(answers.end())]);
}

/// A rebuild of `main` does its work in order and stops it at the first
/// failure; then it frees the flag, whatever the work came to; and only if
/// the work succeeded does it replay requests: the one it was started with,
/// and then those that waited with the flag.
pub proof fn a_main_rebuild_runs_in_order<R>(answers: MainAnswers<R>, request: Option<R>)
    ensures
        answers.rebuild(request) == answers.work() + seq![MainStage::ClearFlag(answers.result())]
            + replay_stages(answers.due(request)) + seq![MainStage::Closed(answers.end())],
{
    let start = MainRebuildState::initial(request);
    let clear = start.at(MainStage::ClearFlag(answers.result()));
    lemma_run_from_clear_flag(answers, request);
    assert(answers.run(start) =~= answers.work() + answers.run(clear)) by {
        lemma_run_work(answers, start);
    }
    assert(answers.rebuild(request) =~= answers.work() + seq![
        MainStage::ClearFlag(answers.result()),
    ] + replay_stages(answers.due(request)) + seq![MainStage::Closed(answers.end())]);
}

proof fn lemma_run_work<R>(answers: MainAnswers<R>, start: MainRebuildState<R>)
    requires
        start.stage is FindWindow,
    ensures
        answers.run(start) =~= answers.work() + answers.run(
            start.at(MainStage::ClearFlag(answers.result())),
        ),
{
    let clear = start.at(MainStage::ClearFlag(answers.result()));
    let read = start.at(MainStage::ReadConfig);
    let build = start.at(MainStage::Build);
    let watch = start.at(MainStage::Watch);
    let darken = start.at(MainStage::DarkenCaption);
    let hide = start.at(MainStage::Hide);
    let tail = answers.run(clear);
    assert(answers.next(watch) == darken);
    assert(answers.next(darken) == hide);
    assert(answers.run(watch) == seq![watch.stage] + answers.run(darken));
    assert(answers.run(darken) == seq![darken.stage] + answers.run(hide));
    assert(answers.run(hide) == seq![hide.stage] + answers.run(answers.next(hide)));
    assert(answers.run(build) == seq![build.stage] + answers.run(answers.next(build)));
    assert(answers.run(read) == seq![read.stage] + answers.run(answers.next(read)));
    assert(answers.run(start) == seq![start.stage] + answers.run(answers.next(start)));
    if answers.found {
        let destroy = start.at(MainStage::DestroyAndRelease);
        assert(answers.next(start) == destroy);
        assert(answers.run(destroy) == seq![destroy.stage] + answers.run(answers.next(destroy)));
        assert(answers.next(destroy) == if answers.released is Ok {
            read
        } else {
            clear
        });
    } else {
        assert(answers.next(start) == read);
    }
    if answers.label_free() {
        assert(answers.next(read) == if answers.declared {
            build
        } else {
            clear
        });
        if answers.declared {
            assert(answers.next(build) == if answers.built is Ok {
                watch
            } else {
                clear
            });
            if answers.built is Ok {
                assert(answers.next(hide) == clear);
            }
        }
    }
}

proof fn lemma_main_frees_flag_once<R>(answers: MainAnswers<R>, thread: MainRebuildState<R>)
    ensures
        main_frees(answers.run(thread)) == if main_holds_flag(thread.stage) {
            1int
        } else {
            0
        },
    decreases main_distance(thread.stage), thread.waiting.len(),
{
    let run = answers.run(thread);
    if thread.stage is Closed {
        assert(run.skip(1) =~= Seq::empty());
        assert(main_frees(run.skip(1)) == 0);
    } else {
        assert(run.skip(1) =~= answers.run(answers.next(thread)));
        lemma_main_frees_flag_once(answers, answers.next(thread));
    }
}

/// A rebuild of `main` frees its flag exactly once, however it ends: a failed
/// rebuild leaves the way open for the next attempt.
pub proof fn a_main_rebuild_frees_its_flag_once<R>(answers: MainAnswers<R>, request: Option<R>)
    ensures
        main_frees(answers.rebuild(request)) == 1,
{
    lemma_main_frees_flag_once(answers, MainRebuildState::initial(request));
}

proof fn lemma_replays_of_concat<R>(
    first: Seq<MainStage<R, Seq<char>>>,
    second: Seq<MainStage<R, Seq<char>>>,
)
    ensures
        replays(first + second) == replays(first) + replays(second),
    decreases first.len(),
{
    if first.len() == 0 {
        assert(first + second =~= second);
        assert(replays(first) + replays(second) =~= replays(second));
    } else {
        assert((first + second).skip(1) =~= first.skip(1) + second);
        lemma_replays_of_concat(first.skip(1), second);
        assert(replays(first + second) =~= replays(first) + replays(second));
    }
}

proof fn lemma_no_replays<R>(run: Seq<MainStage<R, Seq<char>>>)
    requires
        forall|i: int| 0 <= i < run.len() ==> #[trigger] run[i] !is Replay,
    ensures
        replays(run) == Seq::<R>::empty(),
    decreases run.len(),
{
    if run.len() > 0 {
        assert(run[0] !is Replay);
        assert forall|i: int| 0 <= i < run.skip(1).len() implies #[trigger] run.skip(
            1,
        )[i] !is Replay by {
            assert(run.skip(1)[i] == run[i + 1]);
        }
        lemma_no_replays(run.skip(1));
    }
}

proof fn lemma_replays_of_replay_stages<R>(requests: Seq<R>)
    ensures
        replays(replay_stages(requests)) == requests,
    decreases requests.len(),
{
    if requests.len() > 0 {
        assert(replay_stages(requests).skip(1) =~= replay_stages(requests.skip(1)));
        lemma_replays_of_replay_stages(requests.skip(1));
        assert(requests =~= seq![requests[0]] + requests.skip(1));
    } else {
        assert(replays(replay_stages(requests)) =~= requests);
    }
}

/// A rebuild of `main` that succeeds replays the request it was started with
/// and then each one that waited with its flag, in order and each once. One
/// that fails replays none.
pub proof fn a_main_rebuild_replays_what_is_due<R>(answers: MainAnswers<R>, request: Option<R>)
    ensures
        replays(answers.rebuild(request)) == answers.due(request),
{
    a_main_rebuild_runs_in_order(answers, request);
    let before = answers.work() + seq![MainStage::ClearFlag(answers.result())];
    let middle = replay_stages(answers.due(request));
    let after = seq![MainStage::<R, Seq<char>>::Closed(answers.end())];
    lemma_replays_of_concat(before + middle, after);
    lemma_replays_of_concat(before, middle);
    lemma_no_replays(before);
    lemma_no_replays(after);
    lemma_replays_of_replay_stages(answers.due(request));
    assert(Seq::empty() + answers.due(request) + Seq::empty() =~= answers.due(request));
}

/// Every replay comes after the flag was freed for a rebuild that succeeded,
/// so a replayed request meets no trace of this rebuild in flight.
pub proof fn a_replay_follows_the_freed_flag<R>(
    answers: MainAnswers<R>,
    request: Option<R>,
    i: int,
)
    requires
        0 <= i < answers.rebuild(request).len(),
        answers.rebuild(request)[i] is Replay,
    ensures
        answers.result() is Ok,
        answers.work().len() < i,
        answers.rebuild(request)[answers.work().len() as int] == MainStage::<
            R,
            Seq<char>,
        >::ClearFlag(answers.result()),
{
    a_main_rebuild_runs_in_order(answers, request);
}

/// A window is built only where none has the label: either none was found, or
/// the one that was found is destroyed and its label released.
pub proof fn main_is_built_only_under_a_free_label<R>(
    answers: MainAnswers<R>,
    request: Option<R>,
)
    requires
        answers.rebuild(request).contains(MainStage::Build),
    ensures
        answers.label_free(),
        answers.found <==> answers.rebuild(request).contains(MainStage::DestroyAndRelease),
{
    a_main_rebuild_runs_in_order(answers, request);
    if answers.found {
        assert(answers.rebuild(request)[1] is DestroyAndRelease);
    }
}

/// The click that hits an unusable window while no rebuild is in flight still
/// does what the user asked: the guard has the window rebuilt for it, and a
/// rebuild that succeeds replays the very request as soon as it has freed
/// the flag.
pub proof fn a_click_on_an_unusable_window_still_lands<R>(
    exists: bool,
    alive: bool,
    request: R,
    answers: MainAnswers<R>,
)
    requires
        !(exists && alive),
        answers.result() is Ok,
    ensures
        crate::window_recovery::guarded(exists, alive, false) == GuardAction::Rebuild,
        ({
            let run = answers.rebuild(Some(request));
            let freed = answers.work().len() as int;
            &&& freed + 1 < run.len()
            &&& run[freed] == MainStage::<R, Seq<char>>::ClearFlag(answers.result())
            &&& run[freed + 1] == MainStage::<R, Seq<char>>::Replay(request)
        }),
{
    a_main_rebuild_runs_in_order(answers, Some(request));
    assert(answers.due(Some(request))[0] == request);
}

/// After a loss, `main` comes back only if it was on screen on a surface that
/// is known and not hidden; it then comes back on that surface, where it was,
/// and by way of a forced reopen.
pub proof fn a_lost_main_comes_back_as_it_was<M, T>(
    replay: bool,
    snapshot: Option<SurfaceSnapshot<M, T>>,
    position: Option<(i32, i32)>,
)
    ensures
        ({
            let request = crate::window_recovery::replay_after_loss(replay, snapshot, position);
            &&& request is Some <==> replay && snapshot is Some && snapshot->0.mode !is Hidden
            &&& request is Some ==> {
                &&& request->0.mode == snapshot->0.mode
                &&& request->0.target == snapshot->0.target
                &&& request->0.position == position
                &&& request->0.reopen
            }
        }),
{
}

/// Whether `reply` answers the stage of a thread that tears a window down.
pub open spec fn answers_teardown<P>(
    stage: TeardownStage<P, Seq<char>>,
    reply: Reply<Seq<char>>,
) -> bool {
    match stage {
        TeardownStage::FindWindow => reply is Found,
        TeardownStage::ClearFlag(_) => reply is Done,
        TeardownStage::Closed(_) => false,
        _ => reply is Outcome,
    }
}

/// How many more pieces of work a thread that tears a window down can have.
pub open spec fn teardown_work_left<P>(stage: TeardownStage<P, Seq<char>>) -> nat {
    match stage {
        TeardownStage::FindWindow => 4,
        TeardownStage::DestroyAndRelease => 3,
        TeardownStage::ClearFlag(_) => 2,
        TeardownStage::Reopen(_) => 1,
        TeardownStage::Closed(_) => 0,
    }
}

/// Whether a thread that tears a window down still holds the rebuild flag.
pub open spec fn teardown_holds_flag<P>(stage: TeardownStage<P, Seq<char>>) -> bool {
    stage !is Reopen && stage !is Closed
}

/// Every answer brings the thread nearer to its end, and the thread holds the
/// rebuild flag until it frees it, and never again after that.
pub proof fn every_answer_advances_a_teardown<P>(
    thread: Teardown<P, Seq<char>>,
    reply: Reply<Seq<char>>,
)
    requires
        answers_teardown(thread.stage, reply),
    ensures
        teardown_work_left(thread.after(reply).stage) < teardown_work_left(thread.stage),
        teardown_holds_flag(thread.after(reply).stage) <==> teardown_holds_flag(thread.stage)
            && thread.stage !is ClearFlag,
{
}

/// What comes of each piece of work of one teardown.
pub struct TeardownAnswers {
    /// Whether a window has the label.
    pub found: bool,
    /// What comes of destroying it and waiting for its label.
    pub released: Result<(), Seq<char>>,
    pub reopened: Result<(), Seq<char>>,
}

impl TeardownAnswers {
    pub open spec fn reply<P>(self, stage: TeardownStage<P, Seq<char>>) -> Reply<Seq<char>> {
        match stage {
            TeardownStage::FindWindow => Reply::Found(self.found),
            TeardownStage::DestroyAndRelease => Reply::Outcome(self.released),
            TeardownStage::Reopen(_) => Reply::Outcome(self.reopened),
            _ => Reply::Done,
        }
    }

    /// What the teardown comes to; a missing window is already torn down.
    pub open spec fn result(self) -> Result<(), Seq<char>> {
        if self.found {
            self.released
        } else {
            Ok(())
        }
    }

    /// How the thread ends.
    pub open spec fn end<P>(self, reopen: Option<P>) -> RebuildEnd<Seq<char>> {
        match (self.result(), reopen, self.reopened) {
            (Err(error), _, _) => RebuildEnd::Failed(error),
            (Ok(()), None, _) => RebuildEnd::TornDown,
            (Ok(()), Some(_), Ok(())) => RebuildEnd::Rebuilt,
            (Ok(()), Some(_), Err(error)) => RebuildEnd::ReopenFailed(error),
        }
    }

    /// The stages that a thread goes through from `thread` on.
    pub open spec fn run<P>(self, thread: Teardown<P, Seq<char>>) -> Seq<
        TeardownStage<P, Seq<char>>,
    >
        decreases teardown_work_left(thread.stage),
    {
        if thread.stage is Closed {
            seq![thread.stage]
        } else {
            seq![thread.stage] + self.run(thread.after(self.reply(thread.stage)))
        }
    }
}

/// A teardown destroys the window where there is one, then frees the flag
/// exactly once, whatever came of that, and only then, if the window is gone
/// and is to be reopened, reopens it as it was told to.
pub proof fn a_teardown_runs_in_order<P>(answers: TeardownAnswers, reopen: Option<P>)
    ensures
        answers.run(Teardown::<P, Seq<char>>::initial(reopen)) == seq![
            TeardownStage::FindWindow,
        ] + (if answers.found {
            seq![TeardownStage::DestroyAndRelease]
        } else {
            Seq::empty()
        }) + seq![TeardownStage::ClearFlag(answers.result())] + (match reopen {
            Some(how) if answers.result() is Ok => seq![TeardownStage::Reopen(how)],
            _ => Seq::empty(),
        }) + seq![TeardownStage::Closed(answers.end(reopen))],
{
    reveal_with_fuel(TeardownAnswers::run, 6);
}

/// A failure of a piece of work is what the rebuild comes to, with its own
/// error, and it is how the thread ends: no request is replayed after it,
/// whatever waits with the flag.
pub proof fn a_failure_ends_a_main_rebuild<R>(
    thread: MainRebuildState<R>,
    error: Seq<char>,
    waiting: Seq<R>,
)
    requires
        thread.stage is DestroyAndRelease || thread.stage is Build || thread.stage is Hide,
    ensures
        ({
            let failed = thread.after(Reply::Outcome(Err(error)));
            &&& failed.stage == MainStage::<R, Seq<char>>::ClearFlag(Err(error))
            &&& failed.after_flag_freed(waiting).stage == MainStage::<R, Seq<char>>::Closed(
                RebuildEnd::Failed(error),
            )
        }),
{
}

/// How a thread that rebuilds `main` can get anywhere, told backwards. The
/// label is waited for only where a window was found. The declaration is read
/// only where no window has the label. A window is built only where it is
/// declared, watched only once it is built, then given its caption, and then
/// hidden; and the rebuild counts as a success only once it is hidden.
pub proof fn main_gets_nowhere_without_what_comes_before<R>(
    thread: MainRebuildState<R>,
    reply: Reply<Seq<char>>,
)
    requires
        answers_main(thread.stage, reply),
    ensures
        ({
            let next = thread.after(reply);
            let succeeded = reply matches Reply::Outcome(Ok(_));
            &&& next.stage is DestroyAndRelease <==> thread.stage is FindWindow && reply
                == Reply::<Seq<char>>::Found(true)
            &&& next.stage is ReadConfig <==> {
                ||| thread.stage is FindWindow && reply == Reply::<Seq<char>>::Found(false)
                ||| thread.stage is DestroyAndRelease && succeeded
            }
            &&& next.stage is Build <==> thread.stage is ReadConfig && reply == Reply::<
                Seq<char>,
            >::Found(true)
            &&& next.stage is Watch <==> thread.stage is Build && succeeded
            &&& next.stage is DarkenCaption <==> thread.stage is Watch
            &&& next.stage is Hide <==> thread.stage is DarkenCaption
            &&& (next.stage matches MainStage::ClearFlag(Ok(_))) <==> thread.stage is Hide
                && succeeded
            &&& thread.stage is ReadConfig && reply == Reply::<Seq<char>>::Found(false)
                ==> next.stage == MainStage::<R, Seq<char>>::ClearFlag(
                Err("no window is declared in tauri.conf.json"@),
            )
            &&& thread.stage !is Replay ==> next.request == thread.request
        }),
{
}

/// After a success the thread replays its own request first and keeps the
/// waiting ones for later; without one of its own it takes the first of those
/// that wait; and with none at all it is at its end.
pub proof fn the_own_request_is_replayed_first<R>(thread: MainRebuildState<R>, waiting: Seq<R>)
    requires
        thread.stage matches MainStage::ClearFlag(Ok(_)),
    ensures
        ({
            let next = thread.after_flag_freed(waiting);
            &&& thread.request matches Some(own) ==> next.stage == MainStage::<
                R,
                Seq<char>,
            >::Replay(own) && next.waiting == waiting
            &&& thread.request is None && waiting.len() > 0 ==> next.stage == MainStage::<
                R,
                Seq<char>,
            >::Replay(waiting[0]) && next.waiting == waiting.subrange(1, waiting.len() as int)
            &&& thread.request is None && waiting.len() == 0 ==> next.stage == MainStage::<
                R,
                Seq<char>,
            >::Closed(RebuildEnd::Rebuilt)
        }),
{
    let next = thread.after_flag_freed(waiting);
    if thread.request is Some {
        assert(next.waiting =~= waiting);
    } else if waiting.len() > 0 {
        assert(next.waiting =~= waiting.subrange(1, waiting.len() as int));
    }
}

/// From one replay the thread goes on to the first of the requests that are
/// left, whatever came of it, and to its end when none is left.
pub proof fn replays_go_from_front_to_back<R>(
    thread: MainRebuildState<R>,
    result: Result<(), Seq<char>>,
)
    requires
        thread.stage is Replay,
    ensures
        ({
            let next = thread.after(Reply::Outcome(result));
            let left = thread.waiting;
            &&& left.len() > 0 ==> next.stage == MainStage::<R, Seq<char>>::Replay(left[0])
                && next.waiting == left.subrange(1, left.len() as int)
            &&& left.len() == 0 ==> next.stage == MainStage::<R, Seq<char>>::Closed(
                RebuildEnd::Rebuilt,
            )
        }),
{
    if thread.waiting.len() > 0 {
        assert(thread.waiting.skip(1) =~= thread.waiting.subrange(
            1,
            thread.waiting.len() as int,
        ));
    }
}

/// Speaking of a thread in terms of text loses nothing but the identity of
/// the strings: the stage, the requests and the error texts are its own.
pub proof fn a_thread_is_what_its_view_says<R>(thread: MainRebuild<R>)
    ensures
        thread@.request == thread.request,
        thread@.waiting == thread.waiting@,
        thread@.stage is FindWindow <==> thread.stage is FindWindow,
        thread@.stage is DestroyAndRelease <==> thread.stage is DestroyAndRelease,
        thread@.stage is ReadConfig <==> thread.stage is ReadConfig,
        thread@.stage is Build <==> thread.stage is Build,
        thread@.stage is Watch <==> thread.stage is Watch,
        thread@.stage is DarkenCaption <==> thread.stage is DarkenCaption,
        thread@.stage is Hide <==> thread.stage is Hide,
        (thread@.stage matches MainStage::ClearFlag(Ok(_))) <==> (
        thread.stage matches MainStage::ClearFlag(Ok(_))),
        thread.stage matches MainStage::ClearFlag(Err(error)) ==> thread@.stage == MainStage::<
            R,
            Seq<char>,
        >::ClearFlag(Err(error@)),
        thread.stage matches MainStage::Replay(request) ==> thread@.stage == MainStage::<
            R,
            Seq<char>,
        >::Replay(request),
        thread.stage matches MainStage::Closed(RebuildEnd::Failed(error)) ==> thread@.stage
            == MainStage::<R, Seq<char>>::Closed(RebuildEnd::Failed(error@)),
        thread.stage matches MainStage::Closed(RebuildEnd::Rebuilt) ==> thread@.stage
            == MainStage::<R, Seq<char>>::Closed(RebuildEnd::Rebuilt),
{
}

/// How a teardown can get anywhere, told backwards. A window is destroyed only
/// where one was found. The flag is freed with a success only where none was
/// found or its destruction succeeded, and with the error of that destruction
/// otherwise. The window is reopened only after a success, and exactly as the
/// thread was told to. A failure ends the thread with its own error.
pub proof fn a_teardown_gets_nowhere_without_what_comes_before<P>(
    thread: Teardown<P, Seq<char>>,
    reply: Reply<Seq<char>>,
)
    requires
        answers_teardown(thread.stage, reply),
    ensures
        ({
            let next = thread.after(reply);
            let succeeded = reply matches Reply::Outcome(Ok(_));
            let freed = thread.stage matches TeardownStage::ClearFlag(Ok(_));
            &&& next.stage is DestroyAndRelease <==> thread.stage is FindWindow && reply
                == Reply::<Seq<char>>::Found(true)
            &&& (next.stage matches TeardownStage::ClearFlag(Ok(_))) <==> {
                ||| thread.stage is FindWindow && reply == Reply::<Seq<char>>::Found(false)
                ||| thread.stage is DestroyAndRelease && succeeded
            }
            &&& thread.stage is DestroyAndRelease ==> (reply matches Reply::Outcome(
                Err(error),
            ) ==> next.stage == TeardownStage::<P, Seq<char>>::ClearFlag(Err(error)))
            &&& next.stage is Reopen <==> freed && thread.reopen is Some
            &&& next.stage matches TeardownStage::Reopen(how) ==> thread.reopen == Some(how)
            &&& freed && thread.reopen is None ==> next.stage == TeardownStage::<
                P,
                Seq<char>,
            >::Closed(RebuildEnd::TornDown)
            &&& thread.stage matches TeardownStage::ClearFlag(Err(error)) ==> next.stage
                == TeardownStage::<P, Seq<char>>::Closed(RebuildEnd::Failed(error))
            &&& thread.stage is Reopen && succeeded ==> next.stage == TeardownStage::<
                P,
                Seq<char>,
            >::Closed(RebuildEnd::Rebuilt)
            &&& thread.stage is Reopen ==> (reply matches Reply::Outcome(Err(error))
                ==> next.stage == TeardownStage::<P, Seq<char>>::Closed(
                RebuildEnd::ReopenFailed(error),
            ))
            &&& thread.stage !is ClearFlag ==> next.reopen == thread.reopen
        }),
{
}

} // verus!
