use webview_recovery::rebuild::{MainRebuild, MainStage, Reply, Teardown, TeardownStage};
use webview_recovery::webview_health::ProbeReport;
use webview_recovery::window_recovery::{
    dispatch_main_rebuild, dispatch_settings_rebuild, guard_action, recover_flyout_after_loss,
    recover_main_after_loss, recover_settings_after_loss, replay_on_main_thread, resolve_live_main,
    settings_window_is_usable, GuardAction, MainRebuildFlag, MainRequest, MainResolution,
    RebuildFlag, ReplayRoute, SettingsResolution, SurfaceMode, SurfaceSnapshot, SurfaceTarget,
};

type Request = MainRequest<u8, u8>;

fn request(reopen: bool) -> Request {
    MainRequest {
        mode: SurfaceMode::Other(3),
        target: SurfaceTarget::Other(4),
        position: Some((-5, 6)),
        reopen,
    }
}

fn clear() -> MainRebuildFlag<Request> {
    MainRebuildFlag::new()
}

fn busy(waiting: Vec<Request>) -> MainRebuildFlag<Request> {
    MainRebuildFlag {
        in_flight: true,
        waiting,
    }
}

fn live() -> Option<ProbeReport> {
    Some(ProbeReport {
        children: vec!["WRY_WEBVIEW".to_string()],
        container_hosts_webview: Some(true),
    })
}

fn dead() -> Option<ProbeReport> {
    Some(ProbeReport {
        children: vec!["WRY_WEBVIEW".to_string()],
        container_hosts_webview: Some(false),
    })
}

#[test]
fn a_live_window_is_shown_as_is() {
    assert_eq!(guard_action(true, true, false), GuardAction::Proceed);
}

#[test]
fn a_dead_window_is_rebuilt() {
    assert_eq!(guard_action(true, false, false), GuardAction::Rebuild);
}

#[test]
fn a_missing_window_is_rebuilt_too() {
    // An earlier recovery that was interrupted after the destroy leaves no
    // window under the label at all; that is recoverable, not fatal.
    assert_eq!(guard_action(false, false, false), GuardAction::Rebuild);
}

#[test]
fn an_in_flight_rebuild_wins_over_every_other_shape() {
    // Concurrent tray clicks must not stack destroy/build cycles on one
    // label, including the case where the half-rebuilt window already probes
    // as alive.
    assert_eq!(guard_action(true, false, true), GuardAction::Waiting);
    assert_eq!(guard_action(false, false, true), GuardAction::Waiting);
    assert_eq!(guard_action(true, true, true), GuardAction::Waiting);
}

#[test]
fn the_flag_lets_one_caller_start() {
    let mut flag = RebuildFlag::new();
    assert!(!flag.in_flight);
    assert!(flag.begin());
    assert!(flag.in_flight);
    assert!(!flag.begin());
    assert!(!flag.begin());
    flag.finish();
    assert!(!flag.in_flight);
    assert!(flag.begin());
}

#[test]
fn a_burst_of_clicks_on_a_dead_main_starts_one_rebuild() {
    let mut flag = clear();
    let mut started = 0;
    for _ in 0..5 {
        match resolve_live_main(Some(("window", dead())), &mut flag, Some(request(false))) {
            MainResolution::Rebuild(thread) => {
                assert_eq!(thread, MainRebuild::start(Some(request(false))));
                started += 1;
            }
            MainResolution::Waiting => assert!(flag.in_flight),
            MainResolution::Proceed(_) => panic!("the window is dead"),
        }
    }
    assert_eq!(started, 1);
    // The first click travels with the rebuild, the others wait for it.
    assert_eq!(flag.waiting.len(), 4);
}

#[test]
fn a_live_main_is_handed_to_its_caller() {
    let mut flag = clear();
    assert_eq!(
        resolve_live_main(Some(("window", live())), &mut flag, Some(request(false))),
        MainResolution::Proceed("window")
    );
    assert_eq!(flag, clear());
}

#[test]
fn an_unusable_main_is_rebuilt_for_the_request() {
    let mut flag = clear();
    assert_eq!(
        resolve_live_main(Some(("window", dead())), &mut flag, Some(request(true))),
        MainResolution::Rebuild(MainRebuild::start(Some(request(true))))
    );
    assert_eq!(flag, busy(vec![]));
    let mut flag = clear();
    assert_eq!(
        resolve_live_main(Some(("window", None)), &mut flag, Some(request(false))),
        MainResolution::Rebuild(MainRebuild::start(Some(request(false))))
    );
    assert_eq!(flag, busy(vec![]));
    let mut flag = clear();
    assert_eq!(
        resolve_live_main::<&str, u8, u8>(None, &mut flag, None),
        MainResolution::Rebuild(MainRebuild::start(None))
    );
    assert_eq!(flag, busy(vec![]));
}

#[test]
fn a_request_that_meets_a_rebuild_in_flight_is_handed_over() {
    let mut flag = busy(vec![]);
    assert_eq!(
        resolve_live_main(Some(("window", live())), &mut flag, Some(request(false))),
        MainResolution::Waiting
    );
    assert_eq!(
        resolve_live_main::<&str, u8, u8>(None, &mut flag, None),
        MainResolution::Waiting
    );
    assert_eq!(
        resolve_live_main(Some(("window", dead())), &mut flag, Some(request(true))),
        MainResolution::Waiting
    );
    assert_eq!(flag, busy(vec![request(false), request(true)]));
    assert_eq!(flag.finish(), vec![request(false), request(true)]);
    assert_eq!(flag, clear());
}

#[test]
fn a_click_during_the_rebuild_of_a_hidden_main_still_lands() {
    let mut flag = clear();
    let mut thread =
        recover_main_after_loss(&mut flag, false, None, None).expect("no rebuild was in flight");
    assert_eq!(
        resolve_live_main(Some(("window", dead())), &mut flag, Some(request(false))),
        MainResolution::Waiting
    );
    for reply in [
        Reply::Found(true),
        Reply::Outcome(Ok(())),
        Reply::Found(true),
        Reply::Outcome(Ok(())),
        Reply::Done,
        Reply::Done,
        Reply::Outcome(Ok(())),
    ] {
        thread = thread.advance(reply);
    }
    assert_eq!(thread.stage, MainStage::ClearFlag(Ok(())));
    let thread = thread.flag_freed(flag.finish());
    assert_eq!(thread.stage, MainStage::Replay(request(false)));
    assert!(!flag.in_flight);
}

#[test]
fn rebuilds_of_main_follow_one_another() {
    let mut flag = clear();
    let first = dispatch_main_rebuild(&mut flag, Some(request(false))).expect("started");
    assert!(dispatch_main_rebuild(&mut flag, Some(request(true))).is_none());
    let first = first
        .advance(Reply::Found(true))
        .advance(Reply::Outcome(Err("label".to_string())));
    assert!(dispatch_main_rebuild(&mut flag, Some(request(true))).is_none());
    let first = first.flag_freed(flag.finish());
    assert!(matches!(first.stage, MainStage::Closed(_)));
    assert!(dispatch_main_rebuild(&mut flag, Some(request(true))).is_some());
}

#[test]
fn the_flag_of_main_lets_one_caller_start() {
    let mut flag = clear();
    assert!(flag.begin());
    assert!(!flag.begin());
    flag.join(Some(request(true)));
    flag.join(None);
    assert_eq!(flag.finish(), vec![request(true)]);
    assert!(flag.begin());
    assert_eq!(flag.finish(), vec![]);
}

#[test]
fn the_settings_window_is_guarded() {
    let mut flag = RebuildFlag::new();
    assert_eq!(
        settings_window_is_usable(&live(), &mut flag, "about"),
        SettingsResolution::Usable
    );
    assert!(!flag.in_flight);
    assert_eq!(
        settings_window_is_usable(&dead(), &mut flag, "about"),
        SettingsResolution::Rebuild(Teardown::start(Some("about".to_string())))
    );
    assert!(flag.in_flight);
    assert_eq!(
        settings_window_is_usable(&live(), &mut flag, "about"),
        SettingsResolution::Waiting
    );
    assert!(flag.in_flight);
    flag.finish();
    assert_eq!(
        settings_window_is_usable(&None, &mut flag, "general"),
        SettingsResolution::Rebuild(Teardown::start(Some("general".to_string())))
    );
}

#[test]
fn a_dispatch_starts_nothing_while_one_is_in_flight() {
    let mut flag = busy(vec![request(false)]);
    assert!(dispatch_main_rebuild(&mut flag, Some(request(true))).is_none());
    assert_eq!(flag, busy(vec![request(false)]));
    let mut flag = RebuildFlag { in_flight: true };
    assert!(dispatch_settings_rebuild(&mut flag, Some("about".to_string())).is_none());
    assert!(recover_flyout_after_loss(&mut flag, true).is_none());
    assert!(flag.in_flight);
}

#[test]
fn a_dispatch_carries_its_request() {
    let mut flag = clear();
    assert_eq!(
        dispatch_main_rebuild(&mut flag, Some(request(false))),
        Some(MainRebuild {
            request: Some(request(false)),
            waiting: vec![],
            stage: MainStage::FindWindow
        })
    );
    assert!(flag.in_flight);
    let mut flag = RebuildFlag::new();
    assert_eq!(
        dispatch_settings_rebuild(&mut flag, Some("about".to_string())),
        Some(Teardown {
            reopen: Some("about".to_string()),
            stage: TeardownStage::FindWindow
        })
    );
    assert!(flag.in_flight);
}

fn lost_main(
    replay: bool,
    mode: Option<SurfaceMode<u8>>,
    position: Option<(i32, i32)>,
) -> Option<Request> {
    let mut flag = clear();
    let snapshot = mode.map(|mode| SurfaceSnapshot {
        mode,
        target: SurfaceTarget::Other(4),
    });
    let thread = recover_main_after_loss(&mut flag, replay, snapshot, position);
    assert!(flag.in_flight);
    let thread = thread.expect("no rebuild was in flight");
    assert_eq!(thread.stage, MainStage::FindWindow);
    thread.request
}

#[test]
fn a_lost_main_on_screen_is_replayed_where_it_was() {
    assert_eq!(
        lost_main(true, Some(SurfaceMode::Other(3)), Some((-5, 6))),
        Some(request(true))
    );
    let settings = lost_main(true, Some(SurfaceMode::Settings), None).expect("a request");
    assert_eq!(settings.mode, SurfaceMode::Settings);
    assert_eq!(settings.position, None);
    assert!(settings.reopen);
}

#[test]
fn a_lost_main_off_screen_is_only_rebuilt() {
    assert_eq!(lost_main(false, Some(SurfaceMode::Other(3)), None), None);
    assert_eq!(lost_main(true, Some(SurfaceMode::Hidden), Some((1, 2))), None);
    assert_eq!(lost_main(true, None, Some((1, 2))), None);
}

fn lost_settings(reopen: bool, target: SurfaceTarget<u8>) -> Option<String> {
    let mut flag = RebuildFlag::new();
    let thread = recover_settings_after_loss(&mut flag, reopen, target);
    assert!(flag.in_flight);
    let thread = thread.expect("no rebuild was in flight");
    assert_eq!(thread.stage, TeardownStage::FindWindow);
    thread.reopen
}

#[test]
fn lost_settings_on_screen_come_back_on_the_default_tab() {
    let display = SurfaceTarget::Settings {
        tab: "display".to_string(),
    };
    assert_eq!(
        lost_settings(true, display.clone()),
        Some("display".to_string())
    );
    assert_eq!(
        lost_settings(true, SurfaceTarget::Other(1)),
        Some("general".to_string())
    );
    assert_eq!(lost_settings(false, display), None);
    assert_eq!(lost_settings(false, SurfaceTarget::Other(1)), None);
}

#[test]
fn a_lost_flyout_comes_back_only_if_it_was_on_screen() {
    let mut flag = RebuildFlag::new();
    let thread = recover_flyout_after_loss(&mut flag, true).expect("started");
    assert_eq!(thread.reopen, Some(()));
    assert!(flag.in_flight);
    let mut flag = RebuildFlag::new();
    let thread = recover_flyout_after_loss(&mut flag, false).expect("started");
    assert_eq!(thread.reopen, None);
    assert_eq!(thread.stage, TeardownStage::FindWindow);
}

#[test]
fn a_request_is_replayed_by_its_route() {
    let call = replay_on_main_thread(request(true));
    assert_eq!(call.route, ReplayRoute::ReopenToTarget);
    assert_eq!(call.mode, SurfaceMode::Other(3));
    assert_eq!(call.target, SurfaceTarget::Other(4));
    assert_eq!(call.position, Some((-5, 6)));
    let call = replay_on_main_thread(request(false));
    assert_eq!(call.route, ReplayRoute::TransitionToTarget);
}
