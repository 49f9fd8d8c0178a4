use webview_recovery::rebuild::{
    MainRebuild, MainStage, RebuildEnd, Reply, Teardown, TeardownStage,
};

fn failed(error: &str) -> Reply<String> {
    Reply::Outcome(Err(error.to_string()))
}

fn succeeded() -> Reply<String> {
    Reply::Outcome(Ok(()))
}

/// What is done to a thread that rebuilds `main`.
enum Step {
    Reply(Reply<String>),
    Freed(Vec<u8>),
}

fn found(there: bool) -> Step {
    Step::Reply(Reply::Found(there))
}

fn done() -> Step {
    Step::Reply(Reply::Done)
}

fn ok() -> Step {
    Step::Reply(succeeded())
}

fn err(error: &str) -> Step {
    Step::Reply(failed(error))
}

fn main_stages(request: Option<u8>, steps: Vec<Step>) -> Vec<MainStage<u8, String>> {
    let mut thread = MainRebuild::start(request);
    let mut stages = Vec::new();
    for step in steps {
        let again = match &thread.stage {
            MainStage::FindWindow => MainStage::FindWindow,
            MainStage::DestroyAndRelease => MainStage::DestroyAndRelease,
            MainStage::ReadConfig => MainStage::ReadConfig,
            MainStage::Build => MainStage::Build,
            MainStage::Watch => MainStage::Watch,
            MainStage::DarkenCaption => MainStage::DarkenCaption,
            MainStage::Hide => MainStage::Hide,
            MainStage::ClearFlag(result) => MainStage::ClearFlag(result.clone()),
            MainStage::Replay(pending) => MainStage::Replay(*pending),
            MainStage::Closed(_) => panic!("a closed thread takes no step"),
        };
        stages.push(again);
        thread = match step {
            Step::Reply(reply) => thread.advance(reply),
            Step::Freed(waiting) => thread.flag_freed(waiting),
        };
    }
    stages.push(thread.stage);
    stages
}

#[test]
fn a_dead_main_is_rebuilt_and_its_request_replayed() {
    assert_eq!(
        main_stages(
            Some(7),
            vec![
                found(true),
                ok(),
                found(true),
                ok(),
                done(),
                done(),
                ok(),
                Step::Freed(vec![]),
                ok(),
            ]
        ),
        vec![
            MainStage::FindWindow,
            MainStage::DestroyAndRelease,
            MainStage::ReadConfig,
            MainStage::Build,
            MainStage::Watch,
            MainStage::DarkenCaption,
            MainStage::Hide,
            MainStage::ClearFlag(Ok(())),
            MainStage::Replay(7),
            MainStage::Closed(RebuildEnd::Rebuilt),
        ]
    );
}

#[test]
fn a_missing_main_is_built_without_a_destroy() {
    assert_eq!(
        main_stages(
            None,
            vec![
                found(false),
                found(true),
                ok(),
                done(),
                done(),
                ok(),
                Step::Freed(vec![]),
            ]
        ),
        vec![
            MainStage::FindWindow,
            MainStage::ReadConfig,
            MainStage::Build,
            MainStage::Watch,
            MainStage::DarkenCaption,
            MainStage::Hide,
            MainStage::ClearFlag(Ok(())),
            MainStage::Closed(RebuildEnd::Rebuilt),
        ]
    );
}

fn built_and_hidden() -> Vec<Step> {
    vec![found(false), found(true), ok(), done(), done(), ok()]
}

#[test]
fn requests_handed_over_are_replayed_behind_the_first() {
    let mut steps = built_and_hidden();
    steps.extend(vec![Step::Freed(vec![8, 9, 8]), ok(), ok(), ok(), ok()]);
    assert_eq!(
        main_stages(Some(7), steps)[7..],
        [
            MainStage::Replay(7),
            MainStage::Replay(8),
            MainStage::Replay(9),
            MainStage::Replay(8),
            MainStage::Closed(RebuildEnd::Rebuilt),
        ]
    );
}

#[test]
fn a_request_handed_over_to_a_rebuild_without_one_is_replayed() {
    let mut steps = built_and_hidden();
    steps.extend(vec![Step::Freed(vec![8]), ok()]);
    assert_eq!(
        main_stages(None, steps)[7..],
        [
            MainStage::Replay(8),
            MainStage::Closed(RebuildEnd::Rebuilt),
        ]
    );
}

#[test]
fn a_failed_replay_does_not_stop_the_next() {
    let mut steps = built_and_hidden();
    steps.extend(vec![Step::Freed(vec![8]), err("replay"), err("replay")]);
    assert_eq!(
        main_stages(Some(7), steps)[7..],
        [
            MainStage::Replay(7),
            MainStage::Replay(8),
            MainStage::Closed(RebuildEnd::Rebuilt),
        ]
    );
}

#[test]
fn a_label_that_is_not_released_stops_the_rebuild() {
    let stages = main_stages(
        Some(7),
        vec![found(true), err("label"), Step::Freed(vec![8])],
    );
    assert_eq!(
        stages,
        vec![
            MainStage::FindWindow,
            MainStage::DestroyAndRelease,
            MainStage::ClearFlag(Err("label".to_string())),
            MainStage::Closed(RebuildEnd::Failed("label".to_string())),
        ]
    );
}

#[test]
fn a_main_that_is_not_declared_cannot_be_rebuilt() {
    let stages = main_stages(
        Some(7),
        vec![found(false), found(false), Step::Freed(vec![])],
    );
    let error = "no window is declared in tauri.conf.json".to_string();
    assert_eq!(stages[2], MainStage::ClearFlag(Err(error.clone())));
    assert_eq!(stages[3], MainStage::Closed(RebuildEnd::Failed(error)));
}

#[test]
fn a_failed_build_or_hide_is_not_replayed() {
    let stages = main_stages(
        Some(7),
        vec![
            found(false),
            found(true),
            err("build"),
            Step::Freed(vec![8]),
        ],
    );
    assert_eq!(
        stages[4],
        MainStage::Closed(RebuildEnd::Failed("build".to_string()))
    );
    let stages = main_stages(
        Some(7),
        vec![
            found(false),
            found(true),
            ok(),
            done(),
            done(),
            err("hide"),
            Step::Freed(vec![8]),
        ],
    );
    assert_eq!(stages[6], MainStage::ClearFlag(Err("hide".to_string())));
    assert_eq!(
        stages[7],
        MainStage::Closed(RebuildEnd::Failed("hide".to_string()))
    );
}

#[test]
fn a_reply_to_other_work_is_ignored() {
    let thread = MainRebuild::start(Some(7u8)).advance(Reply::Done);
    assert_eq!(thread, MainRebuild::start(Some(7)));
    let thread = thread.flag_freed(vec![8]);
    assert_eq!(thread, MainRebuild::start(Some(7)));
    let clearing: MainRebuild<u8> = MainRebuild {
        request: None,
        waiting: vec![],
        stage: MainStage::ClearFlag(Ok(())),
    };
    assert_eq!(
        clearing.advance(Reply::Done).stage,
        MainStage::ClearFlag(Ok(()))
    );
    let closed: Teardown<u8, String> = Teardown {
        reopen: None,
        stage: TeardownStage::Closed(RebuildEnd::TornDown),
    };
    assert_eq!(
        closed.advance(succeeded()).stage,
        TeardownStage::Closed(RebuildEnd::TornDown)
    );
}

#[test]
fn a_teardown_reopens_after_the_flag_is_freed() {
    let thread = Teardown::start(Some("about".to_string())).advance(Reply::Found(true));
    assert_eq!(thread.stage, TeardownStage::DestroyAndRelease);
    let thread = thread.advance(succeeded());
    assert_eq!(thread.stage, TeardownStage::ClearFlag(Ok(())));
    let thread = thread.advance(Reply::Done);
    assert_eq!(thread.stage, TeardownStage::Reopen("about".to_string()));
    assert_eq!(
        thread.advance(succeeded()).stage,
        TeardownStage::Closed(RebuildEnd::Rebuilt)
    );
}

#[test]
fn a_teardown_of_a_missing_window_has_nothing_to_destroy() {
    let thread = Teardown::<(), String>::start(None).advance(Reply::Found(false));
    assert_eq!(thread.stage, TeardownStage::ClearFlag(Ok(())));
    assert_eq!(
        thread.advance(Reply::Done).stage,
        TeardownStage::Closed(RebuildEnd::TornDown)
    );
}

#[test]
fn a_failed_teardown_reopens_nothing() {
    let thread = Teardown::start(Some(()))
        .advance(Reply::Found(true))
        .advance(failed("label"));
    assert_eq!(
        thread.stage,
        TeardownStage::ClearFlag(Err("label".to_string()))
    );
    assert_eq!(
        thread.advance(Reply::Done).stage,
        TeardownStage::Closed(RebuildEnd::Failed("label".to_string()))
    );
}

#[test]
fn a_failed_reopen_is_told_apart() {
    let thread: Teardown<(), String> = Teardown {
        reopen: None,
        stage: TeardownStage::Reopen(()),
    };
    assert_eq!(
        thread.advance(failed("open")).stage,
        TeardownStage::Closed(RebuildEnd::ReopenFailed("open".to_string()))
    );
}
