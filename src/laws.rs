use vstd::prelude::*;
use crate::dispatch::{emitted, UiEvent};
use crate::node_id::NodeKey;
use crate::state::{
    activated, activation_update_model, announcement_text, cycled, effective_focus_of,
    focused_on, initial_tree_model, root_children, with_window_focus, StateModel,
};

verus! {

/// One call of `State::set_window_focus` or `State::move_focus`.
pub enum FocusCall {
    SetWindowFocus(bool),
    MoveFocus(NodeKey),
}

pub open spec fn after_call(s: StateModel, c: FocusCall) -> StateModel {
    match c {
        FocusCall::SetWindowFocus(b) => with_window_focus(s, b),
        FocusCall::MoveFocus(t) => focused_on(s, t),
    }
}

/// The state after the calls `cs`, in order, from `s`.
pub open spec fn after_calls(s: StateModel, cs: Seq<FocusCall>) -> StateModel
    decreases cs.len(),
{
    if cs.len() == 0 {
        s
    } else {
        after_call(after_calls(s, cs.drop_last()), cs.last())
    }
}

/// The flag of the last `SetWindowFocus` in `cs`, or `initial` if there is none.
pub open spec fn last_window_flag(cs: Seq<FocusCall>, initial: bool) -> bool
    decreases cs.len(),
{
    if cs.len() == 0 {
        initial
    } else {
        match cs.last() {
            FocusCall::SetWindowFocus(b) => b,
            FocusCall::MoveFocus(_) => last_window_flag(cs.drop_last(), initial),
        }
    }
}

/// The target of the last `MoveFocus` in `cs`, or `initial` if there is none.
pub open spec fn last_target(cs: Seq<FocusCall>, initial: NodeKey) -> NodeKey
    decreases cs.len(),
{
    if cs.len() == 0 {
        initial
    } else {
        match cs.last() {
            FocusCall::MoveFocus(t) => t,
            FocusCall::SetWindowFocus(_) => last_target(cs.drop_last(), initial),
        }
    }
}

/// How many times `k` occurs in `s`.
pub open spec fn occurrences(s: Seq<NodeKey>, k: NodeKey) -> nat
    decreases s.len(),
{
    if s.len() == 0 {
        0
    } else {
        occurrences(s.drop_last(), k) + if s.last() == k {
            1nat
        } else {
            0nat
        }
    }
}

/// After any sequence of window-focus and move-focus calls, the effective
/// focus is the last move target (or the focus held before) when the latest
/// window-focus flag (or the flag held before) is true, and no focus otherwise.
pub proof fn effective_focus_follows_calls(s: StateModel, cs: Seq<FocusCall>)
    ensures
        effective_focus_of(after_calls(s, cs)) == if last_window_flag(cs, s.window_focused) {
            Some(last_target(cs, s.focus))
        } else {
            None::<NodeKey>
        },
    decreases cs.len(),
{
    if cs.len() > 0 {
        effective_focus_follows_calls(s, cs.drop_last());
        lemma_calls_fields(s, cs);
    }
}

proof fn lemma_calls_fields(s: StateModel, cs: Seq<FocusCall>)
    ensures
        after_calls(s, cs).window_focused == last_window_flag(cs, s.window_focused),
        after_calls(s, cs).focus == last_target(cs, s.focus),
    decreases cs.len(),
{
    if cs.len() > 0 {
        lemma_calls_fields(s, cs.drop_last());
    }
}

/// With nothing announced, the full tree declares the window as root and
/// holds exactly the root and the two controls, and no live region.
pub proof fn initial_tree_holds_root_and_controls(s: StateModel)
    requires
        s.announcement is None,
    ensures
        initial_tree_model(s).root == Some(NodeKey::Window),
        initial_tree_model(s).nodes.len() == 3,
        initial_tree_model(s).nodes[0].0 == NodeKey::Window,
        initial_tree_model(s).nodes[1].0 == NodeKey::Button1,
        initial_tree_model(s).nodes[2].0 == NodeKey::Button2,
        forall|i: int|
            0 <= i < initial_tree_model(s).nodes.len() ==> (#[trigger] initial_tree_model(
                s,
            ).nodes[i]).0 != NodeKey::Announcement,
{
}

/// No update after the full tree declares the root again.
pub proof fn later_updates_keep_root(s: StateModel, ev: UiEvent)
    ensures
        emitted(s, ev) matches Some(u) ==> u.root is None,
{
}

/// The root lists the live region exactly once after anything was announced,
/// and not at all before.
pub proof fn root_lists_announcement_once(s: StateModel)
    ensures
        occurrences(root_children(s), NodeKey::Announcement) == if s.announcement is Some {
            1nat
        } else {
            0nat
        },
{
    let a = seq![NodeKey::Button1];
    let b = seq![NodeKey::Button1, NodeKey::Button2];
    let c = seq![NodeKey::Button1, NodeKey::Button2, NodeKey::Announcement];
    assert(a.drop_last() =~= Seq::<NodeKey>::empty());
    assert(b.drop_last() =~= a);
    assert(c.drop_last() =~= b);
    reveal_with_fuel(occurrences, 4);
}

/// After any activation, repeated or not, the root node of the emitted update
/// and of the new state lists the live region exactly once.
pub proof fn activation_lists_announcement_once(s: StateModel, target: NodeKey)
    requires
        target.is_button(),
    ensures
        occurrences(root_children(activated(s, target)), NodeKey::Announcement) == 1,
        activation_update_model(activated(s, target), announcement_text(target)).nodes[1].1.children
            == root_children(activated(s, target)),
{
    root_lists_announcement_once(activated(s, target));
}

/// A second activation replaces the announcement of the first.
pub proof fn activation_overwrites(s: StateModel, first: NodeKey, second: NodeKey)
    ensures
        activated(activated(s, first), second).announcement == Some(announcement_text(second)),
{
}

/// Cycling focus twice returns it to the control it started on.
pub proof fn cycle_twice_returns(s: StateModel)
    requires
        s.focus.is_button(),
    ensures
        cycled(cycled(s)) == s,
        cycled(s).focus != s.focus,
{
}

} // verus!
