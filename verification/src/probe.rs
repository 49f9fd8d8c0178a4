//! The walk over a window's direct children.
//!
//! The container is not necessarily the first child: a resizable window also
//! owns a resize-border child that sorts ahead of it. The walk therefore
//! visits every direct child, up to [`MAX_CHILDREN`].
//!
//! A [`ProbeWalk`] names the next question to put to the window system; the
//! caller puts it and hands the answer back.

use vstd::prelude::*;

use crate::utf16::decode_lossy;
use crate::webview_health::{ProbeReport, WRY_CONTAINER_CLASS};

verus! {

/// Upper bound on the direct children examined, so a pathological window (or
/// a corrupted sibling chain) can never spin the probe.
pub const MAX_CHILDREN: usize = 32;

/// What a walk waits for. Windows are named by the address of their handle.
#[derive(Debug, Clone, Copy, PartialEq, Eq)]
pub enum ProbeStage {
    /// The first child of the root window.
    FirstChild(usize),
    /// The class name of a child.
    ClassName(usize),
    /// The first child of a container.
    ContainerChild(usize),
    /// The sibling that follows a child.
    NextSibling(usize),
    /// Nothing: the report is complete.
    Done,
}

/// A walk in terms of the text it has gathered.
pub struct ProbeState {
    pub children: Seq<Seq<char>>,
    pub container_hosts_webview: Option<bool>,
    pub stage: ProbeStage,
}

/// The texts of a sequence of strings.
pub open spec fn texts(strings: Seq<String>) -> Seq<Seq<char>> {
    strings.map_values(|s: String| s@)
}

/// The window that a lookup led to. A failed lookup and a null handle both
/// mean that there is none.
pub open spec fn related_window(found: Option<usize>) -> Option<usize> {
    match found {
        Some(window) if window != 0 => Some(window),
        _ => None,
    }
}

/// The text that a class-name lookup left in `buffer`; a negative length
/// means none.
pub open spec fn class_text(buffer: Seq<u16>, len: int) -> Seq<char> {
    crate::utf16::utf16_lossy(
        buffer.take(
            if len > 0 {
                len
            } else {
                0
            },
        ),
    )
}

impl ProbeState {
    /// No more children than the bound allows, and room for another one
    /// whenever a class name is awaited.
    pub open spec fn wf(self) -> bool {
        &&& self.children.len() <= MAX_CHILDREN
        &&& self.stage is ClassName ==> self.children.len() < MAX_CHILDREN
    }

    /// A walk that has asked nothing yet.
    pub open spec fn initial(root: usize) -> ProbeState {
        ProbeState {
            children: Seq::empty(),
            container_hosts_webview: None,
            stage: ProbeStage::FirstChild(root),
        }
    }

    /// The stage in which `child` is examined next, if there is such a child
    /// and the bound leaves room for it.
    pub open spec fn examine(self, child: Option<usize>) -> ProbeStage {
        match related_window(child) {
            Some(window) if self.children.len() < MAX_CHILDREN => ProbeStage::ClassName(window),
            _ => ProbeStage::Done,
        }
    }

    /// The walk after a lookup of a related window.
    pub open spec fn after_window(self, found: Option<usize>) -> ProbeState {
        match self.stage {
            ProbeStage::FirstChild(_) | ProbeStage::NextSibling(_) => ProbeState {
                stage: self.examine(found),
                ..self
            },
            ProbeStage::ContainerChild(container) => ProbeState {
                container_hosts_webview: Some(related_window(found) is Some),
                stage: ProbeStage::NextSibling(container),
                ..self
            },
            _ => self,
        }
    }

    /// The walk after a lookup of a class name.
    pub open spec fn after_class_name(self, name: Seq<char>) -> ProbeState {
        match self.stage {
            ProbeStage::ClassName(child) => ProbeState {
                children: self.children.push(name),
                stage: if name == WRY_CONTAINER_CLASS@ {
                    ProbeStage::ContainerChild(child)
                } else {
                    ProbeStage::NextSibling(child)
                },
                ..self
            },
            _ => self,
        }
    }
}

/// A walk over the direct children of one window.
#[derive(Debug)]
pub struct ProbeWalk {
    children: Vec<String>,
    container_hosts_webview: Option<bool>,
    stage: ProbeStage,
}

impl View for ProbeWalk {
    type V = ProbeState;

    closed spec fn view(&self) -> ProbeState {
        ProbeState {
            children: texts(self.children@),
            container_hosts_webview: self.container_hosts_webview,
            stage: self.stage,
        }
    }
}

/// The window a lookup led to: a failed lookup is the normal end of a chain,
/// and so is a null handle.
pub fn related(found: Option<usize>) -> (window: Option<usize>)
    ensures
        window == related_window(found),
        found matches Some(address) && address != 0 ==> window == found,
        found is None || found == Some(0usize) ==> window is None,
{
    match found {
        Some(address) => if address != 0 {
            Some(address)
        } else {
            None
        },
        None => None,
    }
}

/// The class name in the buffer that a lookup filled, from the length that
/// the lookup returned.
pub fn class_of(buffer: &[u16], len: i32) -> (name: String)
    requires
        len <= buffer@.len(),
    ensures
        name@ == class_text(buffer@, len as int),
        len <= 0 ==> name@.len() == 0,
        len > 0 ==> name@ == crate::utf16::utf16_lossy(buffer@.subrange(0, len as int)),
{
    let used: usize = if len > 0 {
        len as usize
    } else {
        0
    };
    let units = vstd::slice::slice_subrange(buffer, 0, used);
    proof {
        assert(units@ =~= buffer@.take(used as int));
    }
    decode_lossy(units)
}

/// Begin to probe a window from its native handle; a window without one
/// cannot be probed.
pub fn probe(handle: Option<usize>) -> (walk: Option<ProbeWalk>)
    ensures
        match (handle, walk) {
            (Some(root), Some(started)) => started@ == ProbeState::initial(root) && started@.wf(),
            (None, None) => true,
            _ => false,
        },
        walk is Some <==> handle is Some,
        walk matches Some(started) ==> {
            &&& started@.stage == ProbeStage::FirstChild(handle->0)
            &&& started@.children.len() == 0
            &&& started@.container_hosts_webview is None
        },
{
    match handle {
        Some(root) => Some(ProbeWalk::start(root)),
        None => None,
    }
}

impl ProbeWalk {
    /// A walk over the children of `root`.
    pub fn start(root: usize) -> (walk: ProbeWalk)
        ensures
            walk@ == ProbeState::initial(root),
            walk@.wf(),
            walk@.stage == ProbeStage::FirstChild(root),
            walk@.children.len() == 0,
            walk@.container_hosts_webview is None,
    {
        let walk = ProbeWalk {
            children: Vec::new(),
            container_hosts_webview: None,
            stage: ProbeStage::FirstChild(root),
        };
        assert(walk@.children =~= Seq::<Seq<char>>::empty());
        walk
    }

    /// What the walk waits for.
    pub fn stage(&self) -> (stage: ProbeStage)
        ensures
            stage == self@.stage,
    {
        self.stage
    }

    /// Take the answer to a lookup of a related window. Ignored when the walk
    /// waits for something else.
    pub fn on_window(&mut self, found: Option<usize>)
        requires
            old(self)@.wf(),
        ensures
            final(self)@ == old(self)@.after_window(found),
            final(self)@.wf(),
            final(self)@.children == old(self)@.children,
            match old(self)@.stage {
                ProbeStage::FirstChild(_) | ProbeStage::NextSibling(_) => {
                    &&& final(self)@.container_hosts_webview == old(self)@.container_hosts_webview
                    &&& match found {
                        Some(address) => if address != 0 && old(self)@.children.len()
                            < MAX_CHILDREN {
                            final(self)@.stage == ProbeStage::ClassName(address)
                        } else {
                            final(self)@.stage is Done
                        },
                        None => final(self)@.stage is Done,
                    }
                },
                ProbeStage::ContainerChild(container) => {
                    &&& final(self)@.stage == ProbeStage::NextSibling(container)
                    &&& final(self)@.container_hosts_webview == Some(
                        found is Some && found != Some(0usize),
                    )
                },
                _ => final(self)@ == old(self)@,
            },
    {
        let window = related(found);
        match self.stage {
            ProbeStage::FirstChild(_) | ProbeStage::NextSibling(_) => {
                self.stage = match window {
                    Some(child) => if self.children.len() < MAX_CHILDREN {
                        ProbeStage::ClassName(child)
                    } else {
                        ProbeStage::Done
                    },
                    None => ProbeStage::Done,
                };
            },
            ProbeStage::ContainerChild(container) => {
                // The container is live only if WebView2 has parented its own
                // window inside it.
                self.container_hosts_webview = Some(window.is_some());
                self.stage = ProbeStage::NextSibling(container);
            },
            _ => {},
        }
    }

    /// Take the answer to a lookup of a class name: the buffer it filled and
    /// the length it returned. Ignored when the walk waits for something
    /// else.
    pub fn on_class_name(&mut self, buffer: &[u16], len: i32)
        requires
            old(self)@.wf(),
            len <= buffer@.len(),
        ensures
            final(self)@ == old(self)@.after_class_name(class_text(buffer@, len as int)),
            final(self)@.wf(),
            final(self)@.container_hosts_webview == old(self)@.container_hosts_webview,
            match old(self)@.stage {
                ProbeStage::ClassName(child) => {
                    let name = crate::utf16::utf16_lossy(
                        buffer@.subrange(
                            0,
                            if len > 0 {
                                len as int
                            } else {
                                0
                            },
                        ),
                    );
                    &&& final(self)@.children == old(self)@.children.push(name)
                    &&& name == WRY_CONTAINER_CLASS@ ==> final(self)@.stage
                        == ProbeStage::ContainerChild(child)
                    &&& name != WRY_CONTAINER_CLASS@ ==> final(self)@.stage
                        == ProbeStage::NextSibling(child)
                },
                _ => final(self)@ == old(self)@,
            },
    {
        match self.stage {
            ProbeStage::ClassName(child) => {
                let class = class_of(buffer, len);
                let ghost before = self.children@;
                self.stage = if class == WRY_CONTAINER_CLASS.to_string() {
                    ProbeStage::ContainerChild(child)
                } else {
                    ProbeStage::NextSibling(child)
                };
                self.children.push(class);
                assert(texts(self.children@) =~= texts(before).push(class@));
            },
            _ => {},
        }
    }

    /// The report, once the walk is done.
    pub fn into_report(self) -> (report: Option<ProbeReport>)
        ensures
            report is Some <==> self@.stage is Done,
            report matches Some(found) ==> texts(found.children@) == self@.children
                && found.container_hosts_webview == self@.container_hosts_webview,
            report matches Some(found) ==> {
                &&& found.children@.len() == self@.children.len()
                &&& forall|i: int|
                    0 <= i < found.children@.len() ==> (#[trigger] found.children@[i])@
                        == self@.children[i]
            },
    {
        match self.stage {
            ProbeStage::Done => Some(
                ProbeReport {
                    children: self.children,
                    container_hosts_webview: self.container_hosts_webview,
                },
            ),
            _ => None,
        }
    }
}

} // verus!
