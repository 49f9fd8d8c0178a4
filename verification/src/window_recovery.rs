//! What to do about a window whose webview may be gone.
//!
//! A guard that finds a window unusable hands the destroy and rebuild to a
//! background thread and tells its caller to abandon the attempt: the caller
//! may be the main thread, and waiting there would block the very event loop
//! that has to process the destruction. The rebuild re-issues the caller's
//! request once the window is healthy again, so the click that hit the dead
//! window still ends up doing what the user asked, just a beat later. A
//! request for `main` that meets a rebuild already in flight is handed over
//! to it and re-issued in the same way.
//!
//! The same rebuilds serve a loss that WebView2 reports by itself; the
//! `*_after_loss` functions are its side of the contract.

use vstd::prelude::*;

use crate::flag_laws::FlagOp;
use crate::rebuild::{MainRebuild, MainRebuildState, Teardown};
use crate::webview_health::{webview_is_alive, ProbeReport};

verus! {

/// What a caller should do with a window it is about to show.
#[derive(Debug, Clone, Copy, PartialEq, Eq, Structural)]
pub enum GuardAction {
    /// The window is there and its webview is live: carry on.
    Proceed,
    /// The window needs rebuilding and this caller should start it.
    Rebuild,
    /// A rebuild is already running; abandon this attempt without starting
    /// a second one.
    Waiting,
}

/// The policy of [`guard_action`].
pub open spec fn guarded(exists: bool, alive: bool, rebuild_in_flight: bool) -> GuardAction {
    if rebuild_in_flight {
        GuardAction::Waiting
    } else if exists && alive {
        GuardAction::Proceed
    } else {
        GuardAction::Rebuild
    }
}

/// Decide what to do about a window, from facts a caller can cheaply gather.
///
/// A missing window is as recoverable as a dead one: an interrupted earlier
/// recovery leaves exactly that shape. An in-flight rebuild always wins, so
/// concurrent callers cannot stack up destroy/build cycles on one label.
pub fn guard_action(exists: bool, alive: bool, rebuild_in_flight: bool) -> (action: GuardAction)
    ensures
        action == guarded(exists, alive, rebuild_in_flight),
        action == GuardAction::Waiting <==> rebuild_in_flight,
        action == GuardAction::Proceed <==> exists && alive && !rebuild_in_flight,
        action == GuardAction::Rebuild <==> !(exists && alive) && !rebuild_in_flight,
{
    if rebuild_in_flight {
        return GuardAction::Waiting;
    }
    if exists && alive {
        return GuardAction::Proceed;
    }
    GuardAction::Rebuild
}

/// The rebuild flag of one window, set while a rebuild thread is between
/// destroying the window and having replaced it, so a burst of clicks queues
/// one recovery rather than one per click.
#[derive(Debug, PartialEq, Eq)]
pub struct RebuildFlag {
    pub in_flight: bool,
}

impl RebuildFlag {
    /// The flag of a window that no thread is rebuilding.
    pub fn new() -> (flag: RebuildFlag)
        ensures
            !flag.in_flight,
    {
        RebuildFlag { in_flight: false }
    }

    /// Set the flag. Whether the caller is the one who set it, and so is to
    /// start the rebuild.
    pub fn begin(&mut self) -> (started: bool)
        ensures
            final(self).in_flight,
            started == !old(self).in_flight,
            final(self).in_flight == crate::flag_laws::flag_after(
                old(self).in_flight,
                seq![FlagOp::Begin],
            ),
            started <==> crate::flag_laws::starts(old(self).in_flight, seq![FlagOp::Begin]) == 1,
    {
        proof {
            crate::flag_laws::lemma_one_operation(self.in_flight, FlagOp::Begin);
        }
        let started: bool = !self.in_flight;
        self.in_flight = true;
        started
    }

    /// Free the flag.
    pub fn finish(&mut self)
        ensures
            !final(self).in_flight,
            final(self).in_flight == crate::flag_laws::flag_after(
                old(self).in_flight,
                seq![FlagOp::Finish],
            ),
    {
        self.in_flight = false;
    }
}

/// The rebuild flag of `main`, with the requests that wait for the rebuild in
/// flight to re-issue them.
#[derive(Debug, PartialEq, Eq)]
pub struct MainRebuildFlag<R> {
    pub in_flight: bool,
    pub waiting: Vec<R>,
}

/// The requests that wait once `request` has been handed over.
pub open spec fn joined<R>(waiting: Seq<R>, request: Option<R>) -> Seq<R> {
    match request {
        Some(handed_over) => waiting.push(handed_over),
        None => waiting,
    }
}

/// The rebuild flag of `main`, in terms of sequences.
#[verifier::ext_equal]
pub struct MainFlagState<R> {
    pub in_flight: bool,
    pub waiting: Seq<R>,
}

impl<R> MainFlagState<R> {
    /// The flag while no thread is rebuilding `main`.
    pub open spec fn clear() -> Self {
        MainFlagState { in_flight: false, waiting: Seq::empty() }
    }

    /// Requests wait only for a rebuild that is in flight.
    pub open spec fn wf(self) -> bool {
        !self.in_flight ==> self.waiting.len() == 0
    }

    /// The flag once a caller has set it.
    pub open spec fn begun(self) -> Self {
        MainFlagState { in_flight: true, ..self }
    }

    /// The flag once `request` has been handed over to the rebuild in flight.
    pub open spec fn joined_by(self, request: Option<R>) -> Self {
        MainFlagState { waiting: joined(self.waiting, request), ..self }
    }
}

impl<R> View for MainRebuildFlag<R> {
    type V = MainFlagState<R>;

    open spec fn view(&self) -> MainFlagState<R> {
        MainFlagState { in_flight: self.in_flight, waiting: self.waiting@ }
    }
}

impl<R> MainRebuildFlag<R> {
    /// The flag while no thread is rebuilding `main`.
    pub fn new() -> (flag: Self)
        ensures
            flag@ == MainFlagState::<R>::clear(),
            !flag.in_flight,
            flag.waiting@.len() == 0,
    {
        MainRebuildFlag { in_flight: false, waiting: Vec::new() }
    }

    /// Set the flag. Whether the caller is the one who set it, and so is to
    /// start the rebuild.
    pub fn begin(&mut self) -> (started: bool)
        ensures
            final(self)@ == old(self)@.begun(),
            final(self)@.wf(),
            final(self).in_flight,
            final(self).waiting@ == old(self).waiting@,
            started == !old(self).in_flight,
            final(self).in_flight == crate::flag_laws::flag_after(
                old(self).in_flight,
                seq![FlagOp::Begin],
            ),
            started <==> crate::flag_laws::starts(old(self).in_flight, seq![FlagOp::Begin]) == 1,
    {
        proof {
            crate::flag_laws::lemma_one_operation(self.in_flight, FlagOp::Begin);
        }
        let started: bool = !self.in_flight;
        self.in_flight = true;
        started
    }

    /// Hand a request over to the rebuild in flight.
    pub fn join(&mut self, request: Option<R>)
        requires
            old(self).in_flight,
        ensures
            final(self)@ == old(self)@.joined_by(request),
            final(self)@.wf(),
            final(self).in_flight,
            request is None ==> final(self).waiting@ == old(self).waiting@,
            request matches Some(handed_over) ==> final(self).waiting@
                == old(self).waiting@.push(handed_over),
    {
        match request {
            Some(handed_over) => self.waiting.push(handed_over),
            None => {},
        }
    }

    /// Free the flag and take over the requests that wait with it.
    pub fn finish(&mut self) -> (waiting: Vec<R>)
        ensures
            final(self)@ == MainFlagState::<R>::clear(),
            waiting@ == old(self)@.waiting,
            !final(self).in_flight,
            final(self).waiting@.len() == 0,
            waiting@ == old(self).waiting@,
            final(self).in_flight == crate::flag_laws::flag_after(
                old(self).in_flight,
                seq![FlagOp::Finish],
            ),
    {
        self.in_flight = false;
        let mut waiting: Vec<R> = Vec::new();
        std::mem::swap(&mut waiting, &mut self.waiting);
        waiting
    }
}

/// The modes of the surface, as far as recovery tells them apart. `M` names
/// the others.
#[derive(Debug, Clone, PartialEq, Eq)]
pub enum SurfaceMode<M> {
    Hidden,
    Settings,
    Other(M),
}

/// The targets of the surface, as far as recovery tells them apart. `T` names
/// the others.
#[derive(Debug, Clone, PartialEq, Eq)]
pub enum SurfaceTarget<T> {
    Settings { tab: String },
    Other(T),
}

/// The surface at the moment a webview was lost.
#[derive(Debug, PartialEq, Eq)]
pub struct SurfaceSnapshot<M, T> {
    pub mode: SurfaceMode<M>,
    pub target: SurfaceTarget<T>,
}

/// The transition to replay once `main` has been rebuilt.
#[derive(Debug, Clone, PartialEq, Eq)]
pub struct MainRequest<M, T> {
    pub mode: SurfaceMode<M>,
    pub target: SurfaceTarget<T>,
    pub position: Option<(i32, i32)>,
    /// Replay by reopening the surface rather than by a transition. Needed
    /// whenever the surface state already reads `mode`: a plain transition to
    /// the mode the state is in does nothing, and the freshly rebuilt
    /// (hidden) window would never be shown.
    pub reopen: bool,
}

/// What a caller does about `main`.
#[derive(Debug, PartialEq, Eq)]
pub enum MainResolution<W, R> {
    /// The window is live: proceed with it.
    Proceed(W),
    /// A rebuild is already running and has the request now: abandon this
    /// attempt.
    Waiting,
    /// The flag is set now: abandon this attempt and run this thread, which
    /// rebuilds the window and replays the request.
    Rebuild(MainRebuild<R>),
}

/// What a caller does about the settings window.
#[derive(Debug, PartialEq, Eq)]
pub enum SettingsResolution {
    /// The window may be shown as it is.
    Usable,
    /// A rebuild is already running: show nothing.
    Waiting,
    /// The flag is set now: show nothing and run this thread, which reopens
    /// the window on the tab.
    Rebuild(Teardown<String, String>),
}

/// How a request is replayed.
#[derive(Debug, Clone, Copy, PartialEq, Eq, Structural)]
pub enum ReplayRoute {
    /// Apply the surface even if the state already reads its mode.
    ReopenToTarget,
    /// Take a plain transition.
    TransitionToTarget,
}

/// The call that replays a request.
#[derive(Debug, PartialEq, Eq)]
pub struct ReplayCall<M, T> {
    pub route: ReplayRoute,
    pub mode: SurfaceMode<M>,
    pub target: SurfaceTarget<T>,
    pub position: Option<(i32, i32)>,
}

/// Whether a window that was looked up is there and alive.
pub open spec fn looked_up_alive<W>(window: Option<(W, Option<ProbeReport>)>) -> bool {
    match window {
        Some((_, report)) => crate::webview_health::alive_report(report),
        None => false,
    }
}

/// The request to replay after `main` was lost: the current surface, unless
/// it need not be replayed, is not known, or is hidden.
pub open spec fn replay_after_loss<M, T>(
    replay: bool,
    snapshot: Option<SurfaceSnapshot<M, T>>,
    position: Option<(i32, i32)>,
) -> Option<MainRequest<M, T>> {
    match snapshot {
        Some(surface) if replay && surface.mode !is Hidden => Some(
            MainRequest { mode: surface.mode, target: surface.target, position, reopen: true },
        ),
        _ => None,
    }
}

/// The tab on which the settings window is reopened after a loss.
pub open spec fn tab_after_loss<T>(reopen: bool, default_target: SurfaceTarget<T>) -> Option<
    Seq<char>,
> {
    if reopen {
        match default_target {
            SurfaceTarget::Settings { tab } => Some(tab@),
            SurfaceTarget::Other(_) => Some("general"@),
        }
    } else {
        None
    }
}

/// Resolve `main` from a lookup by its label (with the report of its probe)
/// and its rebuild flag, or start to recover it.
///
/// Whenever the caller has to abandon its attempt, a rebuild re-issues the
/// request: one that is in flight takes it over, and otherwise the one that
/// is started here carries it.
pub fn resolve_live_main<W, M, T>(
    window: Option<(W, Option<ProbeReport>)>,
    flag: &mut MainRebuildFlag<MainRequest<M, T>>,
    request: Option<MainRequest<M, T>>,
) -> (resolution: MainResolution<W, MainRequest<M, T>>)
    ensures
        match guarded(window is Some, looked_up_alive(window), old(flag).in_flight) {
            GuardAction::Proceed => {
                &&& resolution == MainResolution::<W, MainRequest<M, T>>::Proceed((window->0).0)
                &&& final(flag)@ == old(flag)@
            },
            GuardAction::Waiting => {
                &&& resolution is Waiting
                &&& final(flag)@ == old(flag)@.joined_by(request)
            },
            GuardAction::Rebuild => {
                &&& resolution matches MainResolution::Rebuild(thread)
                &&& thread@ == MainRebuildState::initial(request)
                &&& final(flag)@ == old(flag)@.begun()
            },
        },
        old(flag)@.wf() ==> final(flag)@.wf(),
        resolution is Waiting <==> old(flag).in_flight,
        resolution is Proceed <==> {
            &&& !old(flag).in_flight
            &&& window matches Some((_, Some(found)))
            &&& found.children@.len() > 0
            &&& found.container_hosts_webview != Some(false)
        },
        resolution matches MainResolution::Proceed(handed_back) ==> {
            &&& window matches Some((found, _))
            &&& handed_back == found
            &&& !final(flag).in_flight
            &&& final(flag).waiting@ == old(flag).waiting@
        },
        resolution is Waiting ==> {
            &&& final(flag).in_flight
            &&& request is None ==> final(flag).waiting@ == old(flag).waiting@
            &&& request matches Some(asked) ==> final(flag).waiting@ == old(flag).waiting@.push(
                asked,
            )
        },
        resolution matches MainResolution::Rebuild(thread) ==> {
            &&& final(flag).in_flight
            &&& final(flag).waiting@ == old(flag).waiting@
            &&& thread.request == request
            &&& thread.waiting@.len() == 0
            &&& thread.stage is FindWindow
        },
{
    let alive: bool = match &window {
        Some((_, report)) => webview_is_alive(report),
        None => false,
    };
    match guard_action(window.is_some(), alive, flag.in_flight) {
        GuardAction::Proceed => {
            let (found, _) = window.unwrap();
            MainResolution::Proceed(found)
        },
        GuardAction::Waiting => {
            flag.join(request);
            MainResolution::Waiting
        },
        GuardAction::Rebuild => MainResolution::Rebuild(
            dispatch_main_rebuild(flag, request).unwrap(),
        ),
    }
}

/// Whether the existing settings window, from the report of its probe and its
/// rebuild flag, may be shown as it is on `tab`, or start to recover it.
pub fn settings_window_is_usable(
    report: &Option<ProbeReport>,
    flag: &mut RebuildFlag,
    tab: &str,
) -> (resolution: SettingsResolution)
    ensures
        match guarded(true, crate::webview_health::alive_report(*report), old(flag).in_flight) {
            GuardAction::Proceed => resolution is Usable && !final(flag).in_flight,
            GuardAction::Waiting => resolution is Waiting && final(flag).in_flight,
            GuardAction::Rebuild => {
                &&& resolution matches SettingsResolution::Rebuild(thread)
                &&& thread.reopen matches Some(reopened)
                &&& reopened@ == tab@
                &&& thread@ == Teardown::<String, Seq<char>>::initial(thread.reopen)
                &&& final(flag).in_flight
            },
        },
        resolution is Waiting <==> old(flag).in_flight,
        resolution is Usable <==> {
            &&& !old(flag).in_flight
            &&& *report matches Some(found)
            &&& found.children@.len() > 0
            &&& found.container_hosts_webview != Some(false)
        },
        final(flag).in_flight <==> resolution !is Usable,
        resolution matches SettingsResolution::Rebuild(thread) ==> {
            &&& thread.stage is FindWindow
            &&& thread.reopen matches Some(reopened)
            &&& reopened@ == tab@
        },
{
    match guard_action(true, webview_is_alive(report), flag.in_flight) {
        GuardAction::Proceed => SettingsResolution::Usable,
        GuardAction::Waiting => SettingsResolution::Waiting,
        GuardAction::Rebuild => SettingsResolution::Rebuild(
            dispatch_settings_rebuild(flag, Some(tab.to_string())).unwrap(),
        ),
    }
}

/// Start a thread that rebuilds `main` and replays `request`, unless one is
/// already running, in which case nothing changes.
pub fn dispatch_main_rebuild<M, T>(
    flag: &mut MainRebuildFlag<MainRequest<M, T>>,
    request: Option<MainRequest<M, T>>,
) -> (thread: Option<MainRebuild<MainRequest<M, T>>>)
    ensures
        final(flag)@ == old(flag)@.begun(),
        final(flag)@.wf(),
        thread is Some <==> !old(flag).in_flight,
        thread matches Some(started) ==> started@ == MainRebuildState::initial(request),
        final(flag).in_flight,
        final(flag).waiting@ == old(flag).waiting@,
        thread matches Some(started) ==> {
            &&& started.request == request
            &&& started.waiting@.len() == 0
            &&& started.stage is FindWindow
        },
{
    if flag.begin() {
        Some(MainRebuild::start(request))
    } else {
        None
    }
}

/// Start a thread that tears the settings window down and, when a tab is
/// given, reopens it on that tab, unless one is already running.
pub fn dispatch_settings_rebuild(flag: &mut RebuildFlag, reopen_tab: Option<String>) -> (thread:
    Option<Teardown<String, String>>)
    ensures
        final(flag).in_flight,
        thread is Some <==> !old(flag).in_flight,
        thread matches Some(started) ==> started@ == Teardown::<String, Seq<char>>::initial(
            reopen_tab,
        ),
        thread matches Some(started) ==> started.reopen == reopen_tab && started.stage is FindWindow,
{
    if flag.begin() {
        Some(Teardown::start(reopen_tab))
    } else {
        None
    }
}

/// `main` lost its webview: rebuild it now, hidden. When it was on screen,
/// `replay` the current surface at `position` so it comes back where the user
/// had it. `snapshot` is that surface, where there is one.
pub fn recover_main_after_loss<M, T>(
    flag: &mut MainRebuildFlag<MainRequest<M, T>>,
    replay: bool,
    snapshot: Option<SurfaceSnapshot<M, T>>,
    position: Option<(i32, i32)>,
) -> (thread: Option<MainRebuild<MainRequest<M, T>>>)
    ensures
        final(flag)@ == old(flag)@.begun(),
        final(flag)@.wf(),
        thread is Some <==> !old(flag).in_flight,
        thread matches Some(started) ==> started@ == MainRebuildState::initial(
            replay_after_loss(replay, snapshot, position),
        ),
        final(flag).in_flight,
        final(flag).waiting@ == old(flag).waiting@,
        thread matches Some(started) ==> {
            &&& started.stage is FindWindow
            &&& started.waiting@.len() == 0
            &&& started.request is Some <==> {
                &&& replay
                &&& snapshot matches Some(surface)
                &&& surface.mode !is Hidden
            }
            &&& started.request matches Some(request) ==> {
                &&& snapshot matches Some(surface)
                &&& request.mode == surface.mode
                &&& request.target == surface.target
                &&& request.position == position
                &&& request.reopen
            }
        },
{
    let request = match snapshot {
        Some(surface) if replay => match surface.mode {
            SurfaceMode::Hidden => None,
            // The state still says the surface is in this mode, so only a
            // forced apply of the same mode will show the rebuilt window.
            mode => Some(MainRequest { mode, target: surface.target, position, reopen: true }),
        },
        _ => None,
    };
    dispatch_main_rebuild(flag, request)
}

/// The settings window lost its webview: tear it down now. When it was on
/// screen, `reopen` it on the tab of `default_target`, the target that the
/// settings mode has by default: the tab it was showing died with the
/// webview, and the default is where the user lands from the tray too.
pub fn recover_settings_after_loss<T>(
    flag: &mut RebuildFlag,
    reopen: bool,
    default_target: SurfaceTarget<T>,
) -> (thread: Option<Teardown<String, String>>)
    ensures
        final(flag).in_flight,
        thread is Some <==> !old(flag).in_flight,
        thread matches Some(started) ==> {
            &&& started@ == Teardown::<String, Seq<char>>::initial(started.reopen)
            &&& match (started.reopen, tab_after_loss(reopen, default_target)) {
                (Some(tab), Some(expected)) => tab@ == expected,
                (None, None) => true,
                _ => false,
            }
        },
        thread matches Some(started) ==> {
            &&& started.stage is FindWindow
            &&& started.reopen is Some <==> reopen
            &&& started.reopen matches Some(reopened) ==> match default_target {
                SurfaceTarget::Settings { tab } => reopened@ == tab@,
                SurfaceTarget::Other(_) => reopened@ == "general"@,
            }
        },
{
    let tab: Option<String> = if reopen {
        match default_target {
            SurfaceTarget::Settings { tab } => Some(tab),
            SurfaceTarget::Other(_) => Some("general".to_string()),
        }
    } else {
        None
    };
    dispatch_settings_rebuild(flag, tab)
}

/// The flyout lost its webview: tear it down now and, when it was on screen,
/// `reopen` it. It anchors itself above the tray, so nothing is carried over.
pub fn recover_flyout_after_loss(flag: &mut RebuildFlag, reopen: bool) -> (thread: Option<
    Teardown<(), String>,
>)
    ensures
        final(flag).in_flight,
        thread is Some <==> !old(flag).in_flight,
        thread matches Some(started) ==> started@ == Teardown::<(), Seq<char>>::initial(
            if reopen {
                Some(())
            } else {
                None
            },
        ),
        thread matches Some(started) ==> started.stage is FindWindow && (started.reopen is Some
            <==> reopen),
{
    if flag.begin() {
        Some(
            Teardown::start(
                if reopen {
                    Some(())
                } else {
                    None
                },
            ),
        )
    } else {
        None
    }
}

/// The call that replays `request` against the rebuilt `main`. It belongs on
/// the main thread, never on the rebuild thread: a transition holds a lock
/// that the window-event handler of the main thread takes too, while it waits
/// for that thread to answer.
pub fn replay_on_main_thread<M, T>(request: MainRequest<M, T>) -> (call: ReplayCall<M, T>)
    ensures
        call.route == (if request.reopen {
            ReplayRoute::ReopenToTarget
        } else {
            ReplayRoute::TransitionToTarget
        }),
        call.mode == request.mode,
        call.target == request.target,
        call.position == request.position,
{
    let route = if request.reopen {
        ReplayRoute::ReopenToTarget
    } else {
        ReplayRoute::TransitionToTarget
    };
    ReplayCall { route, mode: request.mode, target: request.target, position: request.position }
}

/// A window is let through exactly when it is there, alive and not being
/// rebuilt; a rebuild in flight is waited for; everything else is rebuilt.
pub proof fn the_guard_has_three_answers(exists: bool, alive: bool, rebuild_in_flight: bool)
    ensures
        guarded(exists, alive, rebuild_in_flight) == GuardAction::Waiting <==> rebuild_in_flight,
        guarded(exists, alive, rebuild_in_flight) == GuardAction::Proceed <==> exists && alive
            && !rebuild_in_flight,
        guarded(exists, alive, rebuild_in_flight) == GuardAction::Rebuild <==> !rebuild_in_flight
            && !(exists && alive),
{
}

/// What lets a window through is its report alone: a window that was looked up
/// counts as alive exactly when it has a report that lists children and does
/// not tell of an empty container.
pub proof fn only_a_live_report_lets_a_window_through<W>(window: Option<(W, Option<ProbeReport>)>)
    ensures
        looked_up_alive(window) <==> {
            &&& window matches Some((_, Some(found)))
            &&& found.children@.len() > 0
            &&& found.container_hosts_webview != Some(false)
        },
{
}

/// The guard of `main` goes by the same judgement as the probe, whatever the
/// window itself is: two lookups with the same report meet the same guard.
pub proof fn the_guard_goes_by_the_judgement_of_the_probe<W, V>(
    window: W,
    other: V,
    report: Option<ProbeReport>,
)
    ensures
        looked_up_alive(Some((window, report))) == crate::webview_health::alive_report(report),
        looked_up_alive(Some((window, report))) == looked_up_alive(Some((other, report))),
        !looked_up_alive(None::<(W, Option<ProbeReport>)>),
{
}

/// Lost settings come back on the tab of the default target, for every tab,
/// and on the general tab where the default target is no settings tab. They
/// come back only if they were on screen.
pub proof fn lost_settings_come_back_on_the_default_tab<T>(
    reopen: bool,
    tab: String,
    default_target: SurfaceTarget<T>,
)
    ensures
        tab_after_loss(true, SurfaceTarget::<T>::Settings { tab }) == Some(tab@),
        default_target is Other ==> tab_after_loss(true, default_target) == Some("general"@),
        tab_after_loss(reopen, default_target) is Some <==> reopen,
{
}

/// Two default tabs lead to the same place only if they are the same tab.
pub proof fn different_default_tabs_lead_to_different_places<T>(one: String, other: String)
    requires
        one@ != other@,
    ensures
        tab_after_loss(true, SurfaceTarget::<T>::Settings { tab: one }) != tab_after_loss(
            true,
            SurfaceTarget::<T>::Settings { tab: other },
        ),
{
}

/// A request that is handed over waits behind all the others, and none of
/// those is lost or moved.
pub proof fn a_request_joins_at_the_back<R>(waiting: Seq<R>, request: R, i: int)
    ensures
        joined(waiting, Some(request)).len() == waiting.len() + 1,
        joined(waiting, Some(request))[waiting.len() as int] == request,
        0 <= i < waiting.len() ==> joined(waiting, Some(request))[i] == waiting[i],
        joined(waiting, None) == waiting,
{
}

/// Setting the flag of `main` leaves the waiting requests alone, handing one
/// over leaves the flag set, and a clear flag has none waiting.
pub proof fn the_flag_and_its_requests_go_their_own_ways<R>(
    flag: MainFlagState<R>,
    request: Option<R>,
)
    ensures
        flag.begun().in_flight,
        flag.begun().waiting == flag.waiting,
        flag.joined_by(request).in_flight == flag.in_flight,
        request is None ==> flag.joined_by(request).waiting == flag.waiting,
        request matches Some(asked) ==> flag.joined_by(request).waiting == flag.waiting.push(asked),
        !MainFlagState::<R>::clear().in_flight,
        MainFlagState::<R>::clear().waiting.len() == 0,
{
}

} // verus!
