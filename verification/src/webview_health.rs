//! Liveness of a window's WebView2 instance.
//!
//! When the WebView2 browser process exits, WRY does not recreate it and the
//! bare native window stays behind. Once the browser process is gone there is
//! no controller left to ask, so liveness is read off the native child
//! windows instead. A healthy window parents a `WRY_WEBVIEW` container that
//! itself hosts a WebView2 window. A window whose browser process exited on
//! its own has no children at all, and one whose browser process was killed
//! keeps the container with nothing inside it.

use vstd::prelude::*;

verus! {

/// Class name WRY gives the container it parents the WebView2 controller to.
/// WebView2's own child classes are deliberately not matched: they are an
/// implementation detail of Edge.
pub const WRY_CONTAINER_CLASS: &'static str = "WRY_WEBVIEW";

/// What an enumeration of a window's direct children found.
#[derive(Debug, PartialEq, Eq)]
pub struct ProbeReport {
    /// Class names of the direct children, in sibling order.
    pub children: Vec<String>,
    /// `None` when no container was among them, otherwise whether the
    /// container holds a window of its own.
    pub container_hosts_webview: Option<bool>,
}

/// The shapes that count as alive: there are children, and no container among
/// them was found empty.
pub open spec fn alive_shape(child_count: nat, container_hosts_webview: Option<bool>) -> bool {
    child_count > 0 && container_hosts_webview != Some(false)
}

/// Liveness of a window from its report; no report means no native handle.
pub open spec fn alive_report(report: Option<ProbeReport>) -> bool {
    match report {
        Some(found) => alive_shape(found.children@.len(), found.container_hosts_webview),
        None => false,
    }
}

/// Decide from the enumerated children whether the webview is still hosted.
///
/// `container_hosts_webview` is `None` when no container child was found at
/// all, `Some(false)` when it was found but is empty, `Some(true)` when it
/// holds the WebView2 child.
///
/// Conservative on unknown shapes: only the two shapes known to be dead
/// report `false`, so a WebView2 that renames its window classes can never
/// push a healthy window into a destroy/rebuild loop.
pub fn shape_is_alive(children: &[String], container_hosts_webview: Option<bool>) -> (alive: bool)
    ensures
        alive == alive_shape(children@.len(), container_hosts_webview),
        !alive <==> children@.len() == 0 || container_hosts_webview == Some(false),
{
    if children.len() == 0 {
        // The browser process exited on its own: WRY tears its container
        // down too.
        return false;
    }
    // A container that hosts the WebView2 child is the healthy shape; an
    // empty one is a killed browser process.
    container_hosts_webview.unwrap_or(true)
}

/// Whether a window still hosts a live WebView2 instance, from the report of
/// its probe.
///
/// A window that no longer exposes a native handle has no report and counts
/// as dead: a destroyed window stays in the label map until the event loop
/// has processed its destruction, and showing it in that gap shows nothing.
pub fn webview_is_alive(report: &Option<ProbeReport>) -> (alive: bool)
    ensures
        alive == alive_report(*report),
        *report matches Some(found) ==> (!alive <==> found.children@.len() == 0
            || found.container_hosts_webview == Some(false)),
        *report is None ==> !alive,
{
    match report {
        Some(found) => shape_is_alive(found.children.as_slice(), found.container_hosts_webview),
        None => false,
    }
}

/// A report is dead exactly when it lists no children or its container was
/// found empty, whatever the children are called and in whatever order they
/// come. No report at all is dead.
pub proof fn a_report_is_dead_in_two_ways(report: ProbeReport)
    ensures
        !alive_report(Some(report)) <==> report.children@.len() == 0
            || report.container_hosts_webview == Some(false),
        !alive_report(None),
{
}

/// The names of the children and their order do not matter: two reports with
/// the same finding on the container are judged alike, as long as both list
/// some children or neither does.
pub proof fn names_and_order_do_not_matter(one: ProbeReport, other: ProbeReport)
    requires
        one.container_hosts_webview == other.container_hosts_webview,
        one.children@.len() == 0 <==> other.children@.len() == 0,
    ensures
        alive_report(Some(one)) == alive_report(Some(other)),
{
}

/// The container decides: of two reports that list children and differ in
/// whether the container holds a window, one is alive and the other dead.
pub proof fn an_emptied_container_kills(full: ProbeReport, emptied: ProbeReport)
    requires
        full.children@.len() > 0,
        emptied.children@.len() > 0,
        full.container_hosts_webview == Some(true),
        emptied.container_hosts_webview == Some(false),
    ensures
        alive_report(Some(full)),
        !alive_report(Some(emptied)),
{
}

/// Only two shapes are dead: no children, or an empty container. Every other
/// shape is alive, whatever its children are called.
pub proof fn only_two_shapes_are_dead(child_count: nat, container_hosts_webview: Option<bool>)
    ensures
        !alive_shape(child_count, container_hosts_webview) <==> (child_count == 0
            || container_hosts_webview == Some(false)),
        child_count > 0 && container_hosts_webview is None ==> alive_shape(
            child_count,
            container_hosts_webview,
        ),
{
}

} // verus!
