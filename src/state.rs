use vstd::prelude::*;
use crate::node::{
    announcement_model, build_announcement, build_button, button_model, NodeModel, NodeSpec, Role,
};
use crate::node_id::{NodeKey, INITIAL_FOCUS};
use crate::tree::{TreeUpdate, UpdateModel};

verus! {

/// The name of the root window node.
pub const WINDOW_TITLE: &'static str = "Hello world";

/// The mathematical value of a `State`.
pub struct StateModel {
    /// The control that holds logical focus, remembered while the window is in the background.
    pub focus: NodeKey,
    /// Whether the window has the operating system's input focus.
    pub window_focused: bool,
    /// The most recent announcement, if any was made.
    pub announcement: Option<Seq<char>>,
}

/// The state at start-up: the first button focused, the window in the
/// background, nothing announced.
pub open spec fn initial_model() -> StateModel {
    StateModel { focus: NodeKey::Button1, window_focused: false, announcement: None }
}

/// The focus reported to the platform: none while the window lacks input focus.
pub open spec fn effective_focus_of(s: StateModel) -> Option<NodeKey> {
    if s.window_focused {
        Some(s.focus)
    } else {
        None
    }
}

pub open spec fn button_name(id: NodeKey) -> Seq<char> {
    if id == NodeKey::Button1 {
        "Button 1"@
    } else {
        "Button 2"@
    }
}

/// What is announced when control `id` is activated.
pub open spec fn announcement_text(id: NodeKey) -> Seq<char> {
    if id == NodeKey::Button1 {
        "You pressed button 1"@
    } else {
        "You pressed button 2"@
    }
}

/// The root's children: both buttons, then the live region once anything was announced.
pub open spec fn root_children(s: StateModel) -> Seq<NodeKey> {
    if s.announcement is Some {
        seq![NodeKey::Button1, NodeKey::Button2, NodeKey::Announcement]
    } else {
        seq![NodeKey::Button1, NodeKey::Button2]
    }
}

pub open spec fn root_model(s: StateModel) -> NodeModel {
    NodeModel {
        role: Role::Window,
        name: WINDOW_TITLE@,
        bounds: None,
        focusable: false,
        clickable: false,
        polite_live: false,
        children: root_children(s),
    }
}

/// The full tree: root, both buttons, and the live region if an announcement
/// is pending; it declares the root.
pub open spec fn initial_tree_model(s: StateModel) -> UpdateModel {
    let base = seq![
        (NodeKey::Window, root_model(s)),
        (NodeKey::Button1, button_model(NodeKey::Button1, button_name(NodeKey::Button1))),
        (NodeKey::Button2, button_model(NodeKey::Button2, button_name(NodeKey::Button2))),
    ];
    UpdateModel {
        nodes: match s.announcement {
            Some(text) => base.push((NodeKey::Announcement, announcement_model(text))),
            None => base,
        },
        root: Some(NodeKey::Window),
        focus: effective_focus_of(s),
    }
}

/// An update that changes no node and reports the effective focus.
pub open spec fn focus_update_model(s: StateModel) -> UpdateModel {
    UpdateModel { nodes: Seq::empty(), root: None, focus: effective_focus_of(s) }
}

/// The update emitted after an activation that left the state at `s` with
/// announcement `text`: the live region with the new text, then the root.
pub open spec fn activation_update_model(s: StateModel, text: Seq<char>) -> UpdateModel {
    UpdateModel {
        nodes: seq![
            (NodeKey::Announcement, announcement_model(text)),
            (NodeKey::Window, root_model(s)),
        ],
        root: None,
        focus: effective_focus_of(s),
    }
}

pub open spec fn with_window_focus(s: StateModel, focused: bool) -> StateModel {
    StateModel { window_focused: focused, ..s }
}

pub open spec fn focused_on(s: StateModel, target: NodeKey) -> StateModel {
    StateModel { focus: target, ..s }
}

/// Moves focus to the other button (to the first one from anywhere else).
pub open spec fn cycled(s: StateModel) -> StateModel {
    focused_on(s, if s.focus == NodeKey::Button1 { NodeKey::Button2 } else { NodeKey::Button1 })
}

pub open spec fn activated(s: StateModel, target: NodeKey) -> StateModel {
    StateModel { announcement: Some(announcement_text(target)), ..s }
}

/// The focus, window-focus flag and last announcement of the user interface.
pub struct State {
    focus: NodeKey,
    is_window_focused: bool,
    announcement: Option<String>,
}

impl View for State {
    type V = StateModel;

    closed spec fn view(&self) -> StateModel {
        StateModel {
            focus: self.focus,
            window_focused: self.is_window_focused,
            announcement: match self.announcement {
                Some(a) => Some(a@),
                None => None,
            },
        }
    }
}

impl State {
    /// Logical focus is always on one of the two controls.
    pub open spec fn wf(&self) -> bool {
        self@.focus.is_button()
    }

    pub fn new() -> (r: State)
        ensures
            r@ == initial_model(),
            r.wf(),
    {
        State { focus: INITIAL_FOCUS, is_window_focused: false, announcement: None }
    }

    /// The focus to report to the platform.
    pub fn effective_focus(&self) -> (r: Option<NodeKey>)
        ensures
            r == effective_focus_of(self@),
    {
        if self.is_window_focused {
            Some(self.focus)
        } else {
            None
        }
    }

    /// The control that holds logical focus, whether or not the window is focused.
    pub fn logical_focus(&self) -> (r: NodeKey)
        ensures
            r == self@.focus,
    {
        self.focus
    }

    pub fn is_window_focused(&self) -> (r: bool)
        ensures
            r == self@.window_focused,
    {
        self.is_window_focused
    }

    /// The text of the most recent announcement.
    pub fn announcement(&self) -> (r: Option<&str>)
        ensures
            r is Some <==> self@.announcement is Some,
            r matches Some(t) ==> self@.announcement == Some(t@),
    {
        match &self.announcement {
            Some(a) => Some(a.as_str()),
            None => None,
        }
    }

    pub fn build_root(&self) -> (r: NodeSpec)
        ensures
            r@ == root_model(self@),
    {
        let mut children: Vec<NodeKey> = Vec::new();
        children.push(NodeKey::Button1);
        children.push(NodeKey::Button2);
        if self.announcement.is_some() {
            children.push(NodeKey::Announcement);
        }
        let r = NodeSpec {
            role: Role::Window,
            name: String::from_str(WINDOW_TITLE),
            bounds: None,
            focusable: false,
            clickable: false,
            polite_live: false,
            children,
        };
        assert(r@.children =~= root_children(self@));
        r
    }

    /// The full tree, for the platform layer's first activation.
    pub fn build_initial_tree(&self) -> (r: TreeUpdate)
        ensures
            r@ == initial_tree_model(self@),
    {
        let root = self.build_root();
        let button_1 = build_button(NodeKey::Button1, "Button 1");
        let button_2 = build_button(NodeKey::Button2, "Button 2");
        let mut nodes: Vec<(NodeKey, NodeSpec)> = Vec::new();
        nodes.push((NodeKey::Window, root));
        nodes.push((NodeKey::Button1, button_1));
        nodes.push((NodeKey::Button2, button_2));
        if let Some(text) = &self.announcement {
            nodes.push((NodeKey::Announcement, build_announcement(text.as_str())));
        }
        let r = TreeUpdate { nodes, root: Some(NodeKey::Window), focus: self.effective_focus() };
        assert(r@.nodes =~= initial_tree_model(self@).nodes);
        r
    }

    /// An update that only reports the current effective focus.
    pub fn focus_update(&self) -> (r: TreeUpdate)
        ensures
            r@ == focus_update_model(self@),
    {
        let r = TreeUpdate { nodes: Vec::new(), root: None, focus: self.effective_focus() };
        assert(r@.nodes =~= Seq::empty());
        r
    }

    /// Records whether the window has input focus; returns the focus update to push.
    pub fn set_window_focus(&mut self, focused: bool) -> (r: TreeUpdate)
        requires
            old(self).wf(),
        ensures
            final(self).wf(),
            final(self)@ == with_window_focus(old(self)@, focused),
            r@ == focus_update_model(final(self)@),
    {
        self.is_window_focused = focused;
        self.focus_update()
    }

    /// Gives logical focus to control `target`; returns the focus update to push.
    pub fn move_focus(&mut self, target: NodeKey) -> (r: TreeUpdate)
        requires
            old(self).wf(),
            target.is_button(),
        ensures
            final(self).wf(),
            final(self)@ == focused_on(old(self)@, target),
            r@ == focus_update_model(final(self)@),
    {
        self.focus = target;
        self.focus_update()
    }

    /// Moves logical focus to the other control; returns the focus update to push.
    pub fn cycle_focus(&mut self) -> (r: TreeUpdate)
        requires
            old(self).wf(),
        ensures
            final(self).wf(),
            final(self)@ == cycled(old(self)@),
            r@ == focus_update_model(final(self)@),
    {
        let next = if self.focus == NodeKey::Button1 {
            NodeKey::Button2
        } else {
            NodeKey::Button1
        };
        self.move_focus(next)
    }

    /// Presses control `target`: records its announcement and returns the
    /// update that carries the live region and the root that now lists it.
    pub fn activate(&mut self, target: NodeKey) -> (r: TreeUpdate)
        requires
            old(self).wf(),
            target.is_button(),
        ensures
            final(self).wf(),
            final(self)@ == activated(old(self)@, target),
            r@ == activation_update_model(final(self)@, announcement_text(target)),
    {
        let text = if target == NodeKey::Button1 {
            "You pressed button 1"
        } else {
            "You pressed button 2"
        };
        self.announcement = Some(String::from_str(text));
        let announcement = build_announcement(text);
        let root = self.build_root();
        let mut nodes: Vec<(NodeKey, NodeSpec)> = Vec::new();
        nodes.push((NodeKey::Announcement, announcement));
        nodes.push((NodeKey::Window, root));
        let r = TreeUpdate { nodes, root: None, focus: self.effective_focus() };
        assert(r@.nodes =~= activation_update_model(self@, announcement_text(target)).nodes);
        r
    }
}

} // verus!
