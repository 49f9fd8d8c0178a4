use webview_recovery::webview_health::{shape_is_alive, webview_is_alive, ProbeReport};

fn classes(names: &[&str]) -> Vec<String> {
    names.iter().map(|name| (*name).to_string()).collect()
}

fn report(names: &[&str], container_hosts_webview: Option<bool>) -> Option<ProbeReport> {
    Some(ProbeReport {
        children: classes(names),
        container_hosts_webview,
    })
}

#[test]
fn healthy_window_hosts_a_container_with_a_webview2_child() {
    assert!(shape_is_alive(&classes(&["WRY_WEBVIEW"]), Some(true)));
}

#[test]
fn organic_browser_exit_leaves_no_children_at_all() {
    // WRY tears its container down too.
    assert!(!shape_is_alive(&classes(&[]), None));
}

#[test]
fn killed_browser_process_leaves_an_empty_container() {
    // Killing the browser process orphans the container, so a "has any child"
    // check would wrongly report this window as alive.
    assert!(!shape_is_alive(&classes(&["WRY_WEBVIEW"]), Some(false)));
}

#[test]
fn a_resizable_window_is_judged_by_its_container_not_its_first_child() {
    // A resizable window parents its resize borders ahead of the container,
    // so the first child says nothing about the webview.
    let resizable = classes(&["TAURI_DRAG_RESIZE_BORDERS", "WRY_WEBVIEW"]);
    assert!(shape_is_alive(&resizable, Some(true)));
    assert!(!shape_is_alive(&resizable, Some(false)));
}

#[test]
fn unknown_window_shapes_are_treated_as_alive() {
    // Never rebuild on an unknown shape: a false "dead" would be a
    // destroy/rebuild loop.
    assert!(shape_is_alive(&classes(&["SomeOtherContainer"]), None));
    assert!(shape_is_alive(
        &classes(&["TAURI_DRAG_RESIZE_BORDERS"]),
        None
    ));
}

#[test]
fn no_children_are_dead_whatever_the_container_says() {
    assert!(!shape_is_alive(&classes(&[]), Some(true)));
    assert!(!shape_is_alive(&classes(&[]), Some(false)));
}

#[test]
fn a_window_without_a_native_handle_is_dead() {
    assert!(!webview_is_alive(&None));
}

#[test]
fn a_report_is_judged_by_its_shape() {
    assert!(webview_is_alive(&report(&["WRY_WEBVIEW"], Some(true))));
    assert!(!webview_is_alive(&report(&["WRY_WEBVIEW"], Some(false))));
    assert!(webview_is_alive(&report(&["SomeOtherContainer"], None)));
    assert!(!webview_is_alive(&report(&[], None)));
}
