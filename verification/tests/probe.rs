use webview_recovery::probe::{class_of, probe, related, ProbeStage, ProbeWalk, MAX_CHILDREN};
use webview_recovery::webview_health::{webview_is_alive, ProbeReport};

/// A native window with a handle, a class name and the number of its children.
struct Child {
    handle: usize,
    class: &'static str,
    hosted: Option<usize>,
}

fn child(handle: usize, class: &'static str) -> Child {
    Child {
        handle,
        class,
        hosted: None,
    }
}

fn hosting(handle: usize, class: &'static str) -> Child {
    Child {
        handle,
        class,
        hosted: Some(9000),
    }
}

/// Walk the direct children of window 1, and count the questions.
fn walk(children: &[Child]) -> (Option<ProbeReport>, usize) {
    let handle_at = |i: usize| children.get(i).map(|c| c.handle);
    let index_of = |handle: usize| {
        children
            .iter()
            .position(|c| c.handle == handle)
            .expect("a child of the window")
    };
    let mut walk = probe(Some(1)).expect("the window has a handle");
    let mut questions = 0;
    loop {
        match walk.stage() {
            ProbeStage::FirstChild(root) => {
                assert_eq!(root, 1);
                walk.on_window(handle_at(0));
            }
            ProbeStage::ClassName(handle) => {
                let units: Vec<u16> = children[index_of(handle)].class.encode_utf16().collect();
                let mut buffer = [0u16; 256];
                buffer[..units.len()].copy_from_slice(&units);
                walk.on_class_name(&buffer, units.len() as i32);
            }
            ProbeStage::ContainerChild(handle) => {
                let hosted = children[index_of(handle)].hosted;
                walk.on_window(hosted);
            }
            ProbeStage::NextSibling(handle) => {
                walk.on_window(handle_at(index_of(handle) + 1));
            }
            ProbeStage::Done => return (walk.into_report(), questions),
        }
        questions += 1;
    }
}

fn report(names: &[&str], container_hosts_webview: Option<bool>) -> Option<ProbeReport> {
    Some(ProbeReport {
        children: names.iter().map(|name| name.to_string()).collect(),
        container_hosts_webview,
    })
}

#[test]
fn a_window_without_a_handle_cannot_be_probed() {
    assert!(probe(None).is_none());
}

#[test]
fn a_window_without_children_gives_an_empty_report() {
    assert_eq!(walk(&[]).0, report(&[], None));
}

#[test]
fn a_hosting_container_is_reported_behind_the_resize_borders() {
    let (found, questions) = walk(&[
        child(10, "TAURI_DRAG_RESIZE_BORDERS"),
        hosting(11, "WRY_WEBVIEW"),
    ]);
    assert_eq!(
        found,
        report(&["TAURI_DRAG_RESIZE_BORDERS", "WRY_WEBVIEW"], Some(true))
    );
    assert_eq!(questions, 6);
    assert!(webview_is_alive(&found));
}

#[test]
fn an_empty_container_is_reported_ahead_of_another_child() {
    let (found, _) = walk(&[child(10, "WRY_WEBVIEW"), hosting(11, "Other")]);
    assert_eq!(found, report(&["WRY_WEBVIEW", "Other"], Some(false)));
    assert!(!webview_is_alive(&found));
}

#[test]
fn the_last_container_decides() {
    let (found, _) = walk(&[hosting(10, "WRY_WEBVIEW"), child(11, "WRY_WEBVIEW")]);
    assert_eq!(found, report(&["WRY_WEBVIEW", "WRY_WEBVIEW"], Some(false)));
    let (found, _) = walk(&[child(10, "WRY_WEBVIEW"), hosting(11, "WRY_WEBVIEW")]);
    assert_eq!(found, report(&["WRY_WEBVIEW", "WRY_WEBVIEW"], Some(true)));
}

#[test]
fn children_without_a_container_are_alive() {
    let (found, _) = walk(&[hosting(10, "WRY_WEBVIEW2"), child(11, "wry_webview")]);
    assert_eq!(found, report(&["WRY_WEBVIEW2", "wry_webview"], None));
    assert!(webview_is_alive(&found));
}

#[test]
fn only_so_many_children_are_examined() {
    let many: Vec<Child> = (0..MAX_CHILDREN + 5)
        .map(|i| hosting(100 + i, "WRY_WEBVIEW"))
        .collect();
    let (found, questions) = walk(&many);
    assert_eq!(MAX_CHILDREN, 32);
    assert_eq!(found.expect("a report").children.len(), 32);
    assert_eq!(questions, 97);

    let mut hidden: Vec<Child> = (0..MAX_CHILDREN).map(|i| child(100 + i, "Other")).collect();
    hidden.push(child(200, "WRY_WEBVIEW"));
    let (found, _) = walk(&hidden);
    assert_eq!(found.expect("a report").container_hosts_webview, None);
}

#[test]
fn a_sibling_chain_in_a_circle_ends() {
    let mut walk = ProbeWalk::start(1);
    let mut questions = 0;
    while walk.stage() != ProbeStage::Done {
        match walk.stage() {
            ProbeStage::ClassName(_) => walk.on_class_name(&[0x41], 1),
            _ => walk.on_window(Some(7)),
        }
        questions += 1;
    }
    assert_eq!(questions, 65);
}

#[test]
fn a_null_handle_ends_a_chain() {
    assert_eq!(related(Some(0)), None);
    assert_eq!(related(None), None);
    assert_eq!(related(Some(5)), Some(5));

    let mut walk = ProbeWalk::start(1);
    walk.on_window(Some(0));
    assert_eq!(walk.stage(), ProbeStage::Done);

    let mut walk = ProbeWalk::start(1);
    walk.on_window(Some(7));
    let units: Vec<u16> = "WRY_WEBVIEW".encode_utf16().collect();
    walk.on_class_name(&units, 11);
    assert_eq!(walk.stage(), ProbeStage::ContainerChild(7));
    walk.on_window(Some(0));
    walk.on_window(None);
    assert_eq!(walk.into_report(), report(&["WRY_WEBVIEW"], Some(false)));
}

#[test]
fn an_answer_to_another_question_is_ignored() {
    let mut walk = ProbeWalk::start(1);
    walk.on_class_name(&[0x41], 1);
    assert_eq!(walk.stage(), ProbeStage::FirstChild(1));
    walk.on_window(Some(7));
    walk.on_window(Some(8));
    assert_eq!(walk.stage(), ProbeStage::ClassName(7));
    assert!(walk.into_report().is_none());
}

#[test]
fn a_class_name_is_cut_at_the_returned_length() {
    let buffer: Vec<u16> = "WRY_WEBVIEW trailing".encode_utf16().collect();
    assert_eq!(class_of(&buffer, 11), "WRY_WEBVIEW");
    assert_eq!(class_of(&buffer, 20), "WRY_WEBVIEW trailing");
    assert_eq!(class_of(&buffer, 0), "");
    assert_eq!(class_of(&buffer, -1), "");
}

#[test]
fn unpaired_surrogates_are_replaced() {
    let buffer = [
        0xD834u16, 0xDD1E, 0x006D, 0x0075, 0x0073, 0xDD1E, 0x0069, 0x0063, 0xD834,
    ];
    assert_eq!(class_of(&buffer, 9), "\u{1D11E}mus\u{FFFD}ic\u{FFFD}");
    assert_eq!(class_of(&[0xD834, 0x0041], 2), "\u{FFFD}A");
    assert_eq!(
        class_of(&[0xD834, 0xD834, 0xDD1E], 3),
        "\u{FFFD}\u{1D11E}"
    );
    assert_eq!(class_of(&[0xDBFF, 0xDFFF], 2), "\u{10FFFF}");
    assert_eq!(class_of(&[0xD800, 0xDC00], 2), "\u{10000}");
    assert_eq!(class_of(&[0xE000, 0xFFFF], 2), "\u{E000}\u{FFFF}");
}
