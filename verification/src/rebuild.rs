//! The order of work on a rebuild thread.
//!
//! A rebuild never runs on the thread that asked for it: that may be the main
//! thread, whose event loop has to process the destruction of the old window.
//! It runs on a thread of its own, and a machine here tells that thread what
//! to do next from what came of the last thing it did.
//!
//! [`MainRebuild`] builds `main` anew before it frees the window's rebuild
//! flag. It then replays the request it was started with, and after it those
//! that were handed over while it was in flight. [`Teardown`] serves the windows that are built on demand: it frees
//! the flag once the old window is gone, and reopening the window then takes
//! the path that any first open takes.

use vstd::prelude::*;

verus! {

/// What came of a piece of work.
#[derive(Debug, PartialEq, Eq)]
pub enum Reply<E> {
    /// It was done; it cannot fail.
    Done,
    /// Whether there was what was looked for.
    Found(bool),
    /// It succeeded or failed.
    Outcome(Result<(), E>),
}

/// How a rebuild thread ended.
#[derive(Debug, PartialEq, Eq)]
pub enum RebuildEnd<E> {
    /// The old window could not be replaced.
    Failed(E),
    /// The old window is gone and the next open builds a new one.
    TornDown,
    /// The window is back.
    Rebuilt,
    /// The old window is gone, but opening the new one failed.
    ReopenFailed(E),
}

/// The text of the error in a result.
pub open spec fn result_text(result: Result<(), String>) -> Result<(), Seq<char>> {
    match result {
        Ok(()) => Ok(()),
        Err(error) => Err(error@),
    }
}

impl View for Reply<String> {
    type V = Reply<Seq<char>>;

    open spec fn view(&self) -> Reply<Seq<char>> {
        match *self {
            Reply::Done => Reply::Done,
            Reply::Found(found) => Reply::Found(found),
            Reply::Outcome(result) => Reply::Outcome(result_text(result)),
        }
    }
}

impl View for RebuildEnd<String> {
    type V = RebuildEnd<Seq<char>>;

    open spec fn view(&self) -> RebuildEnd<Seq<char>> {
        match *self {
            RebuildEnd::Failed(error) => RebuildEnd::Failed(error@),
            RebuildEnd::TornDown => RebuildEnd::TornDown,
            RebuildEnd::Rebuilt => RebuildEnd::Rebuilt,
            RebuildEnd::ReopenFailed(error) => RebuildEnd::ReopenFailed(error@),
        }
    }
}

/// What the thread that rebuilds `main` does next.
#[derive(Debug, PartialEq, Eq)]
pub enum MainStage<R, E> {
    /// Look `main` up by its label.
    FindWindow,
    /// Destroy it and wait for its label.
    DestroyAndRelease,
    /// Look up its declaration: the first window of the configuration.
    ReadConfig,
    /// Build a window from that declaration.
    Build,
    /// Watch the new webview for its loss.
    Watch,
    /// Give the new window its dark caption.
    DarkenCaption,
    /// Hide the new window.
    Hide,
    /// Free the rebuild flag, with what the rebuild came to, and take over the
    /// requests that wait with it.
    ClearFlag(Result<(), E>),
    /// Replay a request on the main thread.
    Replay(R),
    /// Nothing: the thread is at its end.
    Closed(RebuildEnd<E>),
}

/// The thread that rebuilds `main`.
#[derive(Debug, PartialEq, Eq)]
pub struct MainRebuild<R> {
    /// The request it was started with, until that is replayed.
    pub request: Option<R>,
    /// The requests it has taken over and has yet to replay.
    pub waiting: Vec<R>,
    /// What it does next.
    pub stage: MainStage<R, String>,
}

/// A thread that rebuilds `main`, in terms of sequences and text.
#[verifier::ext_equal]
pub struct MainRebuildState<R> {
    pub request: Option<R>,
    pub waiting: Seq<R>,
    pub stage: MainStage<R, Seq<char>>,
}

impl<R> View for MainRebuild<R> {
    type V = MainRebuildState<R>;

    open spec fn view(&self) -> MainRebuildState<R> {
        MainRebuildState {
            request: self.request,
            waiting: self.waiting@,
            stage: match self.stage {
                MainStage::FindWindow => MainStage::FindWindow,
                MainStage::DestroyAndRelease => MainStage::DestroyAndRelease,
                MainStage::ReadConfig => MainStage::ReadConfig,
                MainStage::Build => MainStage::Build,
                MainStage::Watch => MainStage::Watch,
                MainStage::DarkenCaption => MainStage::DarkenCaption,
                MainStage::Hide => MainStage::Hide,
                MainStage::ClearFlag(result) => MainStage::ClearFlag(result_text(result)),
                MainStage::Replay(request) => MainStage::Replay(request),
                MainStage::Closed(end) => MainStage::Closed(end@),
            },
        }
    }
}

/// The error of a rebuild that finds no declaration of `main`.
pub open spec fn no_declaration() -> Seq<char> {
    "no window is declared in tauri.conf.json"@
}

/// The requests that a thread replays: its own, if it has one, and then those
/// that were handed over to it, in the order in which they came.
pub open spec fn to_replay<R>(own: Option<R>, waiting: Seq<R>) -> Seq<R> {
    match own {
        Some(request) => seq![request] + waiting,
        None => waiting,
    }
}

impl<R> MainRebuildState<R> {
    pub open spec fn initial(request: Option<R>) -> Self {
        MainRebuildState { request, waiting: Seq::empty(), stage: MainStage::FindWindow }
    }

    pub open spec fn at(self, stage: MainStage<R, Seq<char>>) -> Self {
        MainRebuildState { stage, ..self }
    }

    /// A thread that is about to replay `requests` in turn.
    pub open spec fn replaying(requests: Seq<R>) -> Self {
        if requests.len() > 0 {
            MainRebuildState {
                request: None,
                waiting: requests.skip(1),
                stage: MainStage::Replay(requests[0]),
            }
        } else {
            MainRebuildState {
                request: None,
                waiting: Seq::empty(),
                stage: MainStage::Closed(RebuildEnd::Rebuilt),
            }
        }
    }

    /// The thread after `reply`; a reply that does not answer its stage is
    /// ignored. What comes of one replay does not stop the next.
    pub open spec fn after(self, reply: Reply<Seq<char>>) -> Self {
        match (self.stage, reply) {
            (MainStage::FindWindow, Reply::Found(true)) => self.at(MainStage::DestroyAndRelease),
            (MainStage::FindWindow, Reply::Found(false)) => self.at(MainStage::ReadConfig),
            (MainStage::DestroyAndRelease, Reply::Outcome(Ok(()))) => self.at(
                MainStage::ReadConfig,
            ),
            (MainStage::DestroyAndRelease, Reply::Outcome(Err(error))) => self.at(
                MainStage::ClearFlag(Err(error)),
            ),
            (MainStage::ReadConfig, Reply::Found(true)) => self.at(MainStage::Build),
            (MainStage::ReadConfig, Reply::Found(false)) => self.at(
                MainStage::ClearFlag(Err(no_declaration())),
            ),
            (MainStage::Build, Reply::Outcome(Ok(()))) => self.at(MainStage::Watch),
            (MainStage::Build, Reply::Outcome(Err(error))) => self.at(
                MainStage::ClearFlag(Err(error)),
            ),
            (MainStage::Watch, Reply::Done) => self.at(MainStage::DarkenCaption),
            (MainStage::DarkenCaption, Reply::Done) => self.at(MainStage::Hide),
            (MainStage::Hide, Reply::Outcome(result)) => self.at(MainStage::ClearFlag(result)),
            (MainStage::Replay(_), Reply::Outcome(_)) => Self::replaying(self.waiting),
            _ => self,
        }
    }

    /// The thread after it has freed the flag and taken over `waiting`;
    /// ignored when it was not about to. After a failure nothing is replayed.
    pub open spec fn after_flag_freed(self, waiting: Seq<R>) -> Self {
        match self.stage {
            MainStage::ClearFlag(Ok(())) => Self::replaying(to_replay(self.request, waiting)),
            MainStage::ClearFlag(Err(error)) => self.at(
                MainStage::Closed(RebuildEnd::Failed(error)),
            ),
            _ => self,
        }
    }
}

impl<R> MainRebuild<R> {
    /// A thread that has done nothing yet.
    pub fn start(request: Option<R>) -> (thread: Self)
        ensures
            thread@ == MainRebuildState::initial(request),
            thread.request == request,
            thread.waiting@.len() == 0,
            thread.stage is FindWindow,
    {
        MainRebuild { request, waiting: Vec::new(), stage: MainStage::FindWindow }
    }

    /// A thread that is about to replay `requests` in turn.
    fn replaying(requests: Vec<R>) -> (thread: Self)
        ensures
            thread@ == MainRebuildState::replaying(requests@),
            thread.request is None,
            requests@.len() > 0 ==> {
                &&& thread.stage == MainStage::<R, String>::Replay(requests@[0])
                &&& thread.waiting@ == requests@.subrange(1, requests@.len() as int)
            },
            requests@.len() == 0 ==> {
                &&& thread.stage == MainStage::<R, String>::Closed(RebuildEnd::Rebuilt)
                &&& thread.waiting@.len() == 0
            },
    {
        let mut waiting = requests;
        if waiting.len() > 0 {
            let next = waiting.remove(0);
            assert(waiting@ =~= requests@.skip(1));
            MainRebuild { request: None, waiting, stage: MainStage::Replay(next) }
        } else {
            MainRebuild {
                request: None,
                waiting: Vec::new(),
                stage: MainStage::Closed(RebuildEnd::Rebuilt),
            }
        }
    }

    /// What the thread does next, from what came of the last piece of work.
    /// A reply that does not answer the stage is ignored.
    pub fn advance(self, reply: Reply<String>) -> (next: Self)
        ensures
            next@ == self@.after(reply@),
            match (self.stage, reply) {
                (MainStage::FindWindow, Reply::Found(found)) => if found {
                    next.stage is DestroyAndRelease
                } else {
                    next.stage is ReadConfig
                },
                (MainStage::DestroyAndRelease, Reply::Outcome(Ok(_))) => next.stage is ReadConfig,
                (MainStage::DestroyAndRelease, Reply::Outcome(Err(error))) => next.stage
                    == MainStage::<R, String>::ClearFlag(Err(error)),
                (MainStage::ReadConfig, Reply::Found(found)) => if found {
                    next.stage is Build
                } else {
                    next.stage matches MainStage::ClearFlag(Err(error)) && error@
                        == "no window is declared in tauri.conf.json"@
                },
                (MainStage::Build, Reply::Outcome(Ok(_))) => next.stage is Watch,
                (MainStage::Build, Reply::Outcome(Err(error))) => next.stage == MainStage::<
                    R,
                    String,
                >::ClearFlag(Err(error)),
                (MainStage::Watch, Reply::Done) => next.stage is DarkenCaption,
                (MainStage::DarkenCaption, Reply::Done) => next.stage is Hide,
                (MainStage::Hide, Reply::Outcome(result)) => next.stage == MainStage::<
                    R,
                    String,
                >::ClearFlag(result),
                (MainStage::Replay(_), Reply::Outcome(_)) => if self.waiting@.len() > 0 {
                    next.stage == MainStage::<R, String>::Replay(self.waiting@[0])
                } else {
                    next.stage == MainStage::<R, String>::Closed(RebuildEnd::Rebuilt)
                },
                (stage, _) => next.stage == stage,
            },
            if self.stage is Replay && reply is Outcome {
                &&& next.request is None
                &&& self.waiting@.len() > 0 ==> next.waiting@ == self.waiting@.subrange(
                    1,
                    self.waiting@.len() as int,
                )
                &&& self.waiting@.len() == 0 ==> next.waiting@.len() == 0
            } else {
                &&& next.request == self.request
                &&& next.waiting@ == self.waiting@
            },
    {
        let request = self.request;
        let waiting = self.waiting;
        match (self.stage, reply) {
            (MainStage::FindWindow, Reply::Found(found)) => MainRebuild {
                request,
                waiting,
                stage: if found {
                    MainStage::DestroyAndRelease
                } else {
                    MainStage::ReadConfig
                },
            },
            (MainStage::DestroyAndRelease, Reply::Outcome(Ok(()))) => MainRebuild {
                request,
                waiting,
                stage: MainStage::ReadConfig,
            },
            (MainStage::DestroyAndRelease, Reply::Outcome(Err(error))) => MainRebuild {
                request,
                waiting,
                stage: MainStage::ClearFlag(Err(error)),
            },
            (MainStage::ReadConfig, Reply::Found(found)) => MainRebuild {
                request,
                waiting,
                stage: if found {
                    MainStage::Build
                } else {
                    MainStage::ClearFlag(
                        Err("no window is declared in tauri.conf.json".to_string()),
                    )
                },
            },
            (MainStage::Build, Reply::Outcome(Ok(()))) => MainRebuild {
                request,
                waiting,
                stage: MainStage::Watch,
            },
            (MainStage::Build, Reply::Outcome(Err(error))) => MainRebuild {
                request,
                waiting,
                stage: MainStage::ClearFlag(Err(error)),
            },
            (MainStage::Watch, Reply::Done) => MainRebuild {
                request,
                waiting,
                stage: MainStage::DarkenCaption,
            },
            (MainStage::DarkenCaption, Reply::Done) => MainRebuild {
                request,
                waiting,
                stage: MainStage::Hide,
            },
            (MainStage::Hide, Reply::Outcome(result)) => MainRebuild {
                request,
                waiting,
                stage: MainStage::ClearFlag(result),
            },
            (MainStage::Replay(_), Reply::Outcome(_)) => Self::replaying(waiting),
            (stage, _) => MainRebuild { request, waiting, stage },
        }
    }

    /// What the thread does once it has freed the rebuild flag: after a
    /// success it replays its own request and then those that were `waiting`
    /// with the flag, after a failure none. Ignored when it was not about to
    /// free the flag.
    pub fn flag_freed(self, waiting: Vec<R>) -> (next: Self)
        ensures
            next@ == self@.after_flag_freed(waiting@),
            match self.stage {
                MainStage::ClearFlag(Ok(_)) => {
                    &&& next.request is None
                    &&& match self.request {
                        Some(own) => {
                            &&& next.stage == MainStage::<R, String>::Replay(own)
                            &&& next.waiting@ == waiting@
                        },
                        None => if waiting@.len() > 0 {
                            &&& next.stage == MainStage::<R, String>::Replay(waiting@[0])
                            &&& next.waiting@ == waiting@.subrange(1, waiting@.len() as int)
                        } else {
                            &&& next.stage == MainStage::<R, String>::Closed(RebuildEnd::Rebuilt)
                            &&& next.waiting@.len() == 0
                        },
                    }
                },
                MainStage::ClearFlag(Err(error)) => {
                    &&& next.stage == MainStage::<R, String>::Closed(RebuildEnd::Failed(error))
                    &&& next.request == self.request
                    &&& next.waiting@ == self.waiting@
                },
                stage => {
                    &&& next.stage == stage
                    &&& next.request == self.request
                    &&& next.waiting@ == self.waiting@
                },
            },
    {
        match self.stage {
            MainStage::ClearFlag(Ok(())) => {
                let mut requests = waiting;
                match self.request {
                    Some(own) => {
                        requests.insert(0, own);
                        assert(requests@ =~= seq![own] + waiting@);
                    },
                    None => {},
                }
                Self::replaying(requests)
            },
            MainStage::ClearFlag(Err(error)) => MainRebuild {
                request: self.request,
                waiting: self.waiting,
                stage: MainStage::Closed(RebuildEnd::Failed(error)),
            },
            stage => MainRebuild { request: self.request, waiting: self.waiting, stage },
        }
    }
}

/// What the thread that tears a window down does next.
#[derive(Debug, PartialEq, Eq)]
pub enum TeardownStage<P, E> {
    /// Look the window up by its label.
    FindWindow,
    /// Destroy it and wait for its label.
    DestroyAndRelease,
    /// Free the rebuild flag, with what the teardown came to.
    ClearFlag(Result<(), E>),
    /// Open the window anew.
    Reopen(P),
    /// Nothing: the thread is at its end.
    Closed(RebuildEnd<E>),
}

/// The thread that tears a window down: how it still has to reopen it, and
/// what it does next.
#[derive(Debug, PartialEq, Eq)]
pub struct Teardown<P, E> {
    pub reopen: Option<P>,
    pub stage: TeardownStage<P, E>,
}

impl<P> View for Teardown<P, String> {
    type V = Teardown<P, Seq<char>>;

    open spec fn view(&self) -> Teardown<P, Seq<char>> {
        Teardown {
            reopen: self.reopen,
            stage: match self.stage {
                TeardownStage::FindWindow => TeardownStage::FindWindow,
                TeardownStage::DestroyAndRelease => TeardownStage::DestroyAndRelease,
                TeardownStage::ClearFlag(result) => TeardownStage::ClearFlag(result_text(result)),
                TeardownStage::Reopen(how) => TeardownStage::Reopen(how),
                TeardownStage::Closed(end) => TeardownStage::Closed(end@),
            },
        }
    }
}

impl<P> Teardown<P, Seq<char>> {
    pub open spec fn initial(reopen: Option<P>) -> Self {
        Teardown { reopen, stage: TeardownStage::FindWindow }
    }

    pub open spec fn at(self, stage: TeardownStage<P, Seq<char>>) -> Self {
        Teardown { stage, ..self }
    }

    /// The thread after `reply`; a reply that does not answer its stage is
    /// ignored.
    pub open spec fn after(self, reply: Reply<Seq<char>>) -> Self {
        match (self.stage, reply) {
            (TeardownStage::FindWindow, Reply::Found(true)) => self.at(
                TeardownStage::DestroyAndRelease,
            ),
            (TeardownStage::FindWindow, Reply::Found(false)) => self.at(
                TeardownStage::ClearFlag(Ok(())),
            ),
            (TeardownStage::DestroyAndRelease, Reply::Outcome(result)) => self.at(
                TeardownStage::ClearFlag(result),
            ),
            (TeardownStage::ClearFlag(Ok(())), Reply::Done) => match self.reopen {
                Some(how) => Teardown { reopen: None, stage: TeardownStage::Reopen(how) },
                None => self.at(TeardownStage::Closed(RebuildEnd::TornDown)),
            },
            (TeardownStage::ClearFlag(Err(error)), Reply::Done) => self.at(
                TeardownStage::Closed(RebuildEnd::Failed(error)),
            ),
            (TeardownStage::Reopen(_), Reply::Outcome(Ok(()))) => self.at(
                TeardownStage::Closed(RebuildEnd::Rebuilt),
            ),
            (TeardownStage::Reopen(_), Reply::Outcome(Err(error))) => self.at(
                TeardownStage::Closed(RebuildEnd::ReopenFailed(error)),
            ),
            _ => self,
        }
    }
}

impl<P> Teardown<P, String> {
    /// A thread that has done nothing yet.
    pub fn start(reopen: Option<P>) -> (thread: Self)
        ensures
            thread@ == Teardown::<P, Seq<char>>::initial(reopen),
            thread.reopen == reopen,
            thread.stage is FindWindow,
    {
        Teardown { reopen, stage: TeardownStage::FindWindow }
    }

    /// What the thread does next, from what came of the last piece of work.
    /// A reply that does not answer the stage is ignored.
    pub fn advance(self, reply: Reply<String>) -> (next: Self)
        ensures
            next@ == self@.after(reply@),
            match (self.stage, reply) {
                (TeardownStage::FindWindow, Reply::Found(found)) => if found {
                    next.stage is DestroyAndRelease
                } else {
                    next.stage matches TeardownStage::ClearFlag(Ok(_))
                },
                (TeardownStage::DestroyAndRelease, Reply::Outcome(result)) => next.stage
                    == TeardownStage::<P, String>::ClearFlag(result),
                (TeardownStage::ClearFlag(Ok(_)), Reply::Done) => match self.reopen {
                    Some(how) => next.stage == TeardownStage::<P, String>::Reopen(how),
                    None => next.stage == TeardownStage::<P, String>::Closed(RebuildEnd::TornDown),
                },
                (TeardownStage::ClearFlag(Err(error)), Reply::Done) => next.stage
                    == TeardownStage::<P, String>::Closed(RebuildEnd::Failed(error)),
                (TeardownStage::Reopen(_), Reply::Outcome(Ok(_))) => next.stage == TeardownStage::<
                    P,
                    String,
                >::Closed(RebuildEnd::Rebuilt),
                (TeardownStage::Reopen(_), Reply::Outcome(Err(error))) => next.stage
                    == TeardownStage::<P, String>::Closed(RebuildEnd::ReopenFailed(error)),
                (stage, _) => next.stage == stage,
            },
            if next.stage is Reopen && self.stage is ClearFlag {
                next.reopen is None
            } else {
                next.reopen == self.reopen
            },
    {
        let reopen = self.reopen;
        match (self.stage, reply) {
            (TeardownStage::FindWindow, Reply::Found(found)) => Teardown {
                reopen,
                stage: if found {
                    TeardownStage::DestroyAndRelease
                } else {
                    TeardownStage::ClearFlag(Ok(()))
                },
            },
            (TeardownStage::DestroyAndRelease, Reply::Outcome(result)) => Teardown {
                reopen,
                stage: TeardownStage::ClearFlag(result),
            },
            (TeardownStage::ClearFlag(Ok(())), Reply::Done) => match reopen {
                Some(how) => Teardown { reopen: None, stage: TeardownStage::Reopen(how) },
                None => Teardown {
                    reopen: None,
                    stage: TeardownStage::Closed(RebuildEnd::TornDown),
                },
            },
            (TeardownStage::ClearFlag(Err(error)), Reply::Done) => Teardown {
                reopen,
                stage: TeardownStage::Closed(RebuildEnd::Failed(error)),
            },
            (TeardownStage::Reopen(_), Reply::Outcome(Ok(()))) => Teardown {
                reopen,
                stage: TeardownStage::Closed(RebuildEnd::Rebuilt),
            },
            (TeardownStage::Reopen(_), Reply::Outcome(Err(error))) => Teardown {
                reopen,
                stage: TeardownStage::Closed(RebuildEnd::ReopenFailed(error)),
            },
            (stage, _) => Teardown { reopen, stage },
        }
    }
}

} // verus!
