//! What a probe finds, whatever the window system answers.

use vstd::prelude::*;

use crate::probe::{related_window, ProbeStage, ProbeState, MAX_CHILDREN};
use crate::utf16::utf16_lossy;
use crate::webview_health::{alive_shape, ProbeReport, WRY_CONTAINER_CLASS};

verus! {

/// An answer to the question that a walk asks.
pub enum ProbeReply {
    Window(Option<usize>),
    ClassName(Seq<char>),
}

/// Whether `reply` answers what a walk in `state` waits for.
pub open spec fn answers(state: ProbeState, reply: ProbeReply) -> bool {
    match state.stage {
        ProbeStage::ClassName(_) => reply is ClassName,
        ProbeStage::Done => false,
        _ => reply is Window,
    }
}

/// The walk after one reply.
pub open spec fn after_reply(state: ProbeState, reply: ProbeReply) -> ProbeState {
    match reply {
        ProbeReply::Window(found) => state.after_window(found),
        ProbeReply::ClassName(name) => state.after_class_name(name),
    }
}

/// Whether every reply in turn answers what the walk then waits for.
pub open spec fn answered(state: ProbeState, replies: Seq<ProbeReply>) -> bool
    decreases replies.len(),
{
    replies.len() == 0 || (answers(state, replies[0]) && answered(
        after_reply(state, replies[0]),
        replies.skip(1),
    ))
}

/// The walk after all replies.
pub open spec fn after_replies(state: ProbeState, replies: Seq<ProbeReply>) -> ProbeState
    decreases replies.len(),
{
    if replies.len() == 0 {
        state
    } else {
        after_replies(after_reply(state, replies[0]), replies.skip(1))
    }
}

/// How many more questions a walk can ask at most.
pub open spec fn questions_left(state: ProbeState) -> int {
    let room = 3 * (MAX_CHILDREN - state.children.len());
    match state.stage {
        ProbeStage::FirstChild(_) => room + 1,
        ProbeStage::ClassName(_) => room,
        ProbeStage::ContainerChild(_) => room + 2,
        ProbeStage::NextSibling(_) => room + 1,
        ProbeStage::Done => 0,
    }
}

/// Every answer brings a walk nearer to its end and keeps it well formed.
pub proof fn every_answer_shortens_the_walk(state: ProbeState, reply: ProbeReply)
    requires
        state.wf(),
        answers(state, reply),
    ensures
        after_reply(state, reply).wf(),
        0 <= questions_left(after_reply(state, reply)) < questions_left(state),
{
}

proof fn lemma_questions_bound_replies(state: ProbeState, replies: Seq<ProbeReply>)
    requires
        state.wf(),
        answered(state, replies),
    ensures
        replies.len() <= questions_left(state),
        after_replies(state, replies).wf(),
    decreases replies.len(),
{
    if replies.len() > 0 {
        every_answer_shortens_the_walk(state, replies[0]);
        lemma_questions_bound_replies(after_reply(state, replies[0]), replies.skip(1));
    }
}

/// A probe can never spin: whatever is answered, it asks at most one question
/// for the first child and three for each child it examines, and it never
/// gathers more children than the bound.
pub proof fn a_probe_cannot_spin(root: usize, replies: Seq<ProbeReply>)
    requires
        answered(ProbeState::initial(root), replies),
    ensures
        replies.len() <= 3 * MAX_CHILDREN + 1,
        after_replies(ProbeState::initial(root), replies).children.len() <= MAX_CHILDREN,
{
    lemma_questions_bound_replies(ProbeState::initial(root), replies);
}

/// The windows as they stand during a probe.
pub struct WindowTree {
    /// What a lookup of a window's first child answers.
    pub first_child: spec_fn(usize) -> Option<usize>,
    /// What a lookup of the sibling after a window answers.
    pub next_sibling: spec_fn(usize) -> Option<usize>,
    /// The class name of a window in UTF-16.
    pub class_units: spec_fn(usize) -> Seq<u16>,
}

impl WindowTree {
    pub open spec fn class_name(self, window: usize) -> Seq<char> {
        utf16_lossy((self.class_units)(window))
    }

    pub open spec fn is_container(self, window: usize) -> bool {
        self.class_name(window) == WRY_CONTAINER_CLASS@
    }

    pub open spec fn has_child(self, window: usize) -> bool {
        related_window((self.first_child)(window)) is Some
    }

    /// At most `limit` windows of the sibling chain that begins at `first`.
    pub open spec fn chain(self, first: Option<usize>, limit: nat) -> Seq<usize>
        decreases limit,
    {
        match related_window(first) {
            Some(window) if limit > 0 => seq![window] + self.chain(
                (self.next_sibling)(window),
                (limit - 1) as nat,
            ),
            _ => Seq::empty(),
        }
    }

    /// The direct children of `root` that a probe examines.
    pub open spec fn examined(self, root: usize) -> Seq<usize> {
        self.chain((self.first_child)(root), MAX_CHILDREN as nat)
    }

    /// Their class names.
    pub open spec fn class_names(self, windows: Seq<usize>) -> Seq<Seq<char>> {
        windows.map_values(|window: usize| self.class_name(window))
    }

    /// Whether the last container among `windows` has a child; `before` where
    /// there is no container among them.
    pub open spec fn container_hosts(self, windows: Seq<usize>, before: Option<bool>) -> Option<
        bool,
    >
        decreases windows.len(),
    {
        if windows.len() == 0 {
            before
        } else if self.is_container(windows.last()) {
            Some(self.has_child(windows.last()))
        } else {
            self.container_hosts(windows.drop_last(), before)
        }
    }

    /// What the tree answers to the question of a walk.
    pub open spec fn reply(self, stage: ProbeStage) -> ProbeReply {
        match stage {
            ProbeStage::FirstChild(window) => ProbeReply::Window((self.first_child)(window)),
            ProbeStage::ContainerChild(window) => ProbeReply::Window((self.first_child)(window)),
            ProbeStage::NextSibling(window) => ProbeReply::Window((self.next_sibling)(window)),
            ProbeStage::ClassName(window) => ProbeReply::ClassName(self.class_name(window)),
            ProbeStage::Done => ProbeReply::Window(None),
        }
    }

    /// The walk that the tree's answers lead to from `state`.
    pub open spec fn walked(self, state: ProbeState) -> ProbeState
        decreases questions_left(state),
        when state.wf()
    {
        if state.stage is Done {
            state
        } else {
            self.walked(after_reply(state, self.reply(state.stage)))
        }
    }
}

proof fn lemma_container_hosts_from_front(
    tree: WindowTree,
    windows: Seq<usize>,
    before: Option<bool>,
)
    requires
        windows.len() > 0,
    ensures
        tree.container_hosts(windows, before) == tree.container_hosts(
            windows.skip(1),
            if tree.is_container(windows[0]) {
                Some(tree.has_child(windows[0]))
            } else {
                before
            },
        ),
    decreases windows.len(),
{
    if windows.len() > 1 {
        assert(windows.skip(1).last() == windows.last());
        assert(windows.skip(1).drop_last() =~= windows.drop_last().skip(1));
        lemma_container_hosts_from_front(tree, windows.drop_last(), before);
    } else {
        assert(windows.skip(1) =~= Seq::empty());
        assert(windows.drop_last() =~= Seq::empty());
    }
}

/// From a state that waits for the next sibling, the walk adds the rest of
/// the chain.
proof fn lemma_walk_adds_the_chain(tree: WindowTree, state: ProbeState, next: Option<usize>)
    requires
        state.wf(),
        state.stage is FirstChild || state.stage is NextSibling,
    ensures
        tree.walked(state.after_window(next)) == ({
            let rest = tree.chain(next, (MAX_CHILDREN - state.children.len()) as nat);
            ProbeState {
                children: state.children + tree.class_names(rest),
                container_hosts_webview: tree.container_hosts(rest, state.container_hosts_webview),
                stage: ProbeStage::Done,
            }
        }),
    decreases MAX_CHILDREN - state.children.len(),
{
    let limit = (MAX_CHILDREN - state.children.len()) as nat;
    let rest = tree.chain(next, limit);
    let asked = state.after_window(next);
    match related_window(next) {
        Some(window) if limit > 0 => {
            let name = tree.class_name(window);
            let named = asked.after_class_name(name);
            assert(tree.walked(asked) == tree.walked(named));
            let following = (tree.next_sibling)(window);
            let pending = if tree.is_container(window) {
                named.after_window((tree.first_child)(window))
            } else {
                named
            };
            assert(tree.walked(named) == tree.walked(pending));
            assert(tree.walked(pending) == tree.walked(pending.after_window(following)));
            lemma_walk_adds_the_chain(tree, pending, following);
            let tail = tree.chain(following, (limit - 1) as nat);
            assert(rest == seq![window] + tail);
            assert(rest.skip(1) =~= tail);
            lemma_container_hosts_from_front(tree, rest, state.container_hosts_webview);
            assert(state.children + tree.class_names(rest) =~= pending.children + tree.class_names(
                tail,
            ));
        },
        _ => {
            assert(tree.class_names(rest) =~= Seq::empty());
            assert(state.children + tree.class_names(rest) =~= state.children);
        },
    }
}

/// A probe of windows that stand still reports the class names of the direct
/// children in sibling order, up to the bound, and whether the last container
/// among them holds a window of its own.
pub proof fn a_probe_reports_the_direct_children(tree: WindowTree, root: usize)
    ensures
        tree.walked(ProbeState::initial(root)) == (ProbeState {
            children: tree.class_names(tree.examined(root)),
            container_hosts_webview: tree.container_hosts(tree.examined(root), None),
            stage: ProbeStage::Done,
        }),
{
    let start = ProbeState::initial(root);
    let first = (tree.first_child)(root);
    lemma_walk_adds_the_chain(tree, start, first);
    assert(start.children + tree.class_names(tree.examined(root)) =~= tree.class_names(
        tree.examined(root),
    ));
}

/// A window is judged by its container, wherever it stands among the
/// children: the last container among those examined decides, and a window
/// with children but no container counts as alive.
pub proof fn a_window_is_judged_by_its_container(tree: WindowTree, root: usize)
    ensures
        ({
            let windows = tree.examined(root);
            let end = tree.walked(ProbeState::initial(root));
            let alive = alive_shape(end.children.len(), end.container_hosts_webview);
            &&& windows.len() == 0 ==> !alive
            &&& windows.len() > 0 && (forall|i: int|
                0 <= i < windows.len() ==> !tree.is_container(#[trigger] windows[i])) ==> alive
            &&& forall|i: int|
                #![trigger windows[i]]
                0 <= i < windows.len() && tree.is_container(windows[i]) && (forall|j: int|
                    i < j < windows.len() ==> !tree.is_container(#[trigger] windows[j])) ==> alive
                    == tree.has_child(windows[i])
        }),
{
    let windows = tree.examined(root);
    a_probe_reports_the_direct_children(tree, root);
    if forall|i: int| 0 <= i < windows.len() ==> !tree.is_container(#[trigger] windows[i]) {
        lemma_no_container(tree, windows);
    }
    assert forall|i: int|
        #![trigger windows[i]]
        0 <= i < windows.len() && tree.is_container(windows[i]) && (forall|j: int|
            i < j < windows.len() ==> !tree.is_container(
                #[trigger] windows[j],
            )) implies tree.container_hosts(windows, None) == Some(tree.has_child(windows[i])) by {
        lemma_last_container(tree, windows, i);
    }
}

proof fn lemma_no_container(tree: WindowTree, windows: Seq<usize>)
    requires
        forall|i: int| 0 <= i < windows.len() ==> !tree.is_container(#[trigger] windows[i]),
    ensures
        tree.container_hosts(windows, None) is None,
    decreases windows.len(),
{
    if windows.len() > 0 {
        assert(!tree.is_container(windows[windows.len() - 1]));
        lemma_no_container(tree, windows.drop_last());
    }
}

proof fn lemma_last_container(tree: WindowTree, windows: Seq<usize>, i: int)
    requires
        0 <= i < windows.len(),
        tree.is_container(windows[i]),
        forall|j: int| i < j < windows.len() ==> !tree.is_container(#[trigger] windows[j]),
    ensures
        tree.container_hosts(windows, None) == Some(tree.has_child(windows[i])),
    decreases windows.len(),
{
    if i < windows.len() - 1 {
        assert(!tree.is_container(windows[windows.len() - 1]));
        assert(windows.drop_last()[i] == windows[i]);
        lemma_last_container(tree, windows.drop_last(), i);
    }
}

/// A lookup leads to a window exactly when it answers with an address other
/// than null, and then to that very window, however large the address.
pub proof fn every_address_but_null_is_a_window(found: Option<usize>)
    ensures
        found is Some && found != Some(0usize) ==> related_window(found) == found,
        found is None || found == Some(0usize) ==> related_window(found) is None,
{
}

/// A window has a child exactly when the lookup of its first child answers
/// with an address other than null.
pub proof fn a_child_is_any_address_but_null(tree: WindowTree, window: usize)
    ensures
        tree.has_child(window) <==> (tree.first_child)(window) is Some && (tree.first_child)(window)
            != Some(0usize),
{
}

/// What a walk makes of the answer to a lookup of a sibling or first child: it
/// asks for the class name of the very window that was answered, if that is
/// not null and there is room, and is done otherwise. It gathers nothing.
pub proof fn a_walk_goes_on_to_the_window_it_was_led_to(state: ProbeState, found: Option<usize>)
    requires
        state.stage is FirstChild || state.stage is NextSibling,
    ensures
        ({
            let next = state.after_window(found);
            let goes_on = found is Some && found != Some(0usize) && state.children.len()
                < MAX_CHILDREN;
            &&& goes_on ==> next.stage == ProbeStage::ClassName(found->0)
            &&& !goes_on ==> next.stage is Done
            &&& next.children == state.children
            &&& next.container_hosts_webview == state.container_hosts_webview
        }),
{
}

/// What a walk makes of the look into a container: the container hosts a
/// window exactly when the lookup answered with an address other than null,
/// whatever was found in an earlier container, and the walk goes on behind
/// the container.
pub proof fn a_walk_goes_by_the_container_it_looked_into(
    state: ProbeState,
    container: usize,
    found: Option<usize>,
)
    requires
        state.stage == ProbeStage::ContainerChild(container),
    ensures
        ({
            let next = state.after_window(found);
            &&& next.container_hosts_webview == Some(found is Some && found != Some(0usize))
            &&& next.stage == ProbeStage::NextSibling(container)
            &&& next.children == state.children
        }),
{
}

/// What a walk makes of a class name: it adds it behind those it has, whatever
/// it is, and looks into the window exactly when the name is the container's.
pub proof fn a_walk_gathers_every_class_name(state: ProbeState, child: usize, name: Seq<char>)
    requires
        state.stage == ProbeStage::ClassName(child),
    ensures
        ({
            let next = state.after_class_name(name);
            &&& next.children.len() == state.children.len() + 1
            &&& next.children[state.children.len() as int] == name
            &&& forall|i: int|
                0 <= i < state.children.len() ==> #[trigger] next.children[i] == state.children[i]
            &&& name == WRY_CONTAINER_CLASS@ ==> next.stage == ProbeStage::ContainerChild(child)
            &&& name != WRY_CONTAINER_CLASS@ ==> next.stage == ProbeStage::NextSibling(child)
            &&& next.container_hosts_webview == state.container_hosts_webview
        }),
{
}

/// The links of a sibling chain, in terms of the lookups alone.
proof fn lemma_chain_links(tree: WindowTree, first: Option<usize>, limit: nat)
    ensures
        ({
            let windows = tree.chain(first, limit);
            &&& windows.len() <= limit
            &&& first is None || first == Some(0usize) ==> windows.len() == 0
            &&& first is Some && first != Some(0usize) && limit > 0 ==> windows.len() > 0
                && first == Some(windows[0])
            &&& forall|i: int|
                0 <= i < windows.len() - 1 ==> (tree.next_sibling)(#[trigger] windows[i]) == Some(
                    windows[i + 1],
                ) && windows[i + 1] != 0
            &&& forall|i: int|
                0 <= i < windows.len() && i + 1 < limit && (tree.next_sibling)(
                    #[trigger] windows[i],
                ) is Some && (tree.next_sibling)(windows[i]) != Some(0usize) ==> i + 1
                    < windows.len()
        }),
    decreases limit,
{
    let windows = tree.chain(first, limit);
    match related_window(first) {
        Some(window) if limit > 0 => {
            let next = (tree.next_sibling)(window);
            let rest = tree.chain(next, (limit - 1) as nat);
            lemma_chain_links(tree, next, (limit - 1) as nat);
            assert(windows == seq![window] + rest);
            assert forall|i: int| 0 <= i < windows.len() - 1 implies (tree.next_sibling)(
                #[trigger] windows[i],
            ) == Some(windows[i + 1]) && windows[i + 1] != 0 by {
                if i == 0 {
                    assert(windows[1] == rest[0]);
                    assert(next is Some && next != Some(0usize));
                    assert(rest[0] == next->0);
                } else {
                    assert(windows[i] == rest[i - 1]);
                    assert(windows[i + 1] == rest[i]);
                }
            }
            assert forall|i: int|
                0 <= i < windows.len() && i + 1 < limit && (tree.next_sibling)(
                    #[trigger] windows[i],
                ) is Some && (tree.next_sibling)(windows[i]) != Some(0usize) implies i + 1
                < windows.len() by {
                if i == 0 {
                    assert(next == Some(next->0));
                    assert(rest[0] == next->0);
                } else {
                    assert(windows[i] == rest[i - 1]);
                }
            }
        },
        _ => {},
    }
}

/// The windows that a probe examines are the sibling chain below the root. It
/// begins with what the lookup of the first child answers; each window is
/// followed by what the lookup of its next sibling answers; and it ends where
/// such a lookup fails or answers null, or at the bound, and nowhere else.
pub proof fn the_examined_windows_are_the_sibling_chain(tree: WindowTree, root: usize)
    ensures
        ({
            let windows = tree.examined(root);
            let first = (tree.first_child)(root);
            &&& windows.len() <= MAX_CHILDREN
            &&& windows.len() == 0 <==> first is None || first == Some(0usize)
            &&& windows.len() > 0 ==> first == Some(windows[0])
            &&& forall|i: int|
                0 <= i < windows.len() - 1 ==> (tree.next_sibling)(#[trigger] windows[i]) == Some(
                    windows[i + 1],
                ) && windows[i + 1] != 0
            &&& forall|i: int|
                0 <= i < windows.len() && i + 1 < MAX_CHILDREN && (tree.next_sibling)(
                    #[trigger] windows[i],
                ) is Some && (tree.next_sibling)(windows[i]) != Some(0usize) ==> i + 1
                    < windows.len()
        }),
{
    let first = (tree.first_child)(root);
    lemma_chain_links(tree, first, MAX_CHILDREN as nat);
    if first is Some && first != Some(0usize) {
        assert(tree.examined(root)[0] == first->0);
    }
}

/// What a probe gathers, window by window: one name for each window of the
/// sibling chain, and that name is the text of the window's class.
pub proof fn a_probe_names_every_window_of_the_chain(tree: WindowTree, root: usize)
    ensures
        ({
            let windows = tree.examined(root);
            let end = tree.walked(ProbeState::initial(root));
            &&& end.stage is Done
            &&& end.children.len() == windows.len()
            &&& forall|i: int|
                0 <= i < windows.len() ==> #[trigger] end.children[i] == utf16_lossy(
                    (tree.class_units)(windows[i]),
                )
        }),
{
    a_probe_reports_the_direct_children(tree, root);
}

/// The judgement on the report of a walk, in terms of the lookups alone. With
/// no child below the root it is dead. With children but no container among
/// them it is alive. Otherwise it is alive exactly when the last container
/// examined has a first child.
pub proof fn a_walk_is_judged_by_its_last_container(
    tree: WindowTree,
    root: usize,
    report: ProbeReport,
)
    requires
        report.children@.len() == tree.walked(ProbeState::initial(root)).children.len(),
        report.container_hosts_webview == tree.walked(
            ProbeState::initial(root),
        ).container_hosts_webview,
    ensures
        ({
            let windows = tree.examined(root);
            let first = (tree.first_child)(root);
            let alive = crate::webview_health::alive_report(Some(report));
            &&& first is None || first == Some(0usize) ==> !alive
            &&& windows.len() > 0 && (forall|i: int|
                0 <= i < windows.len() ==> utf16_lossy((tree.class_units)(#[trigger] windows[i]))
                    != WRY_CONTAINER_CLASS@) ==> alive
            &&& forall|i: int|
                #![trigger windows[i]]
                0 <= i < windows.len() && utf16_lossy((tree.class_units)(windows[i]))
                    == WRY_CONTAINER_CLASS@ && (forall|j: int|
                    i < j < windows.len() ==> utf16_lossy(
                        (tree.class_units)(#[trigger] windows[j]),
                    ) != WRY_CONTAINER_CLASS@) ==> (alive <==> (tree.first_child)(
                    windows[i],
                ) is Some && (tree.first_child)(windows[i]) != Some(0usize))
        }),
{
    let windows = tree.examined(root);
    let end = tree.walked(ProbeState::initial(root));
    let alive = crate::webview_health::alive_report(Some(report));
    the_examined_windows_are_the_sibling_chain(tree, root);
    a_window_is_judged_by_its_container(tree, root);
    crate::webview_health::a_report_is_dead_in_two_ways(report);
    crate::webview_health::only_two_shapes_are_dead(
        end.children.len(),
        end.container_hosts_webview,
    );
    a_probe_names_every_window_of_the_chain(tree, root);
    assert(alive == alive_shape(end.children.len(), end.container_hosts_webview));
    if forall|i: int|
        0 <= i < windows.len() ==> utf16_lossy((tree.class_units)(#[trigger] windows[i]))
            != WRY_CONTAINER_CLASS@ {
        assert forall|i: int| 0 <= i < windows.len() implies !tree.is_container(
            #[trigger] windows[i],
        ) by {}
    }
    assert forall|i: int|
        #![trigger windows[i]]
        0 <= i < windows.len() && utf16_lossy((tree.class_units)(windows[i]))
            == WRY_CONTAINER_CLASS@ && (forall|j: int|
            i < j < windows.len() ==> utf16_lossy((tree.class_units)(#[trigger] windows[j]))
                != WRY_CONTAINER_CLASS@) implies (alive <==> (tree.first_child)(
        windows[i],
    ) is Some && (tree.first_child)(windows[i]) != Some(0usize)) by {
        assert forall|j: int| i < j < windows.len() implies !tree.is_container(
            #[trigger] windows[j],
        ) by {}
        a_child_is_any_address_but_null(tree, windows[i]);
        assert(tree.is_container(windows[i]));
    }
}

/// The text of a class name is what the buffer holds up to the returned
/// length, and nothing where that length is not positive. Text beyond the
/// length does not matter.
pub proof fn a_class_name_ends_at_the_returned_length(one: Seq<u16>, other: Seq<u16>, len: int)
    requires
        len <= one.len(),
        len <= other.len(),
        forall|i: int| 0 <= i < len ==> one[i] == other[i],
    ensures
        crate::probe::class_text(one, len) == crate::probe::class_text(other, len),
        len > 0 ==> crate::probe::class_text(one, len) == utf16_lossy(one.subrange(0, len)),
        len <= 0 ==> crate::probe::class_text(one, len).len() == 0,
{
    if len > 0 {
        assert(one.take(len) =~= other.take(len));
        assert(one.take(len) =~= one.subrange(0, len));
    } else {
        assert(one.take(0) =~= other.take(0));
    }
}

/// A class name is the container's exactly when its UTF-16 units are the
/// letters of that name.
pub proof fn only_its_own_name_marks_a_container(units: Seq<u16>)
    ensures
        utf16_lossy(units) == WRY_CONTAINER_CLASS@ <==> units == crate::utf16::ascii_units(
            WRY_CONTAINER_CLASS@,
        ),
{
    reveal_strlit("WRY_WEBVIEW");
    crate::utf16::ascii_text_has_one_encoding(units, WRY_CONTAINER_CLASS@);
}

} // verus!
