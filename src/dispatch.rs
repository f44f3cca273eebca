use vstd::prelude::*;
use crate::node_id::NodeKey;
use crate::state::{
    activated, activation_update_model, announcement_text, cycled, focus_update_model, focused_on,
    with_window_focus, State, StateModel,
};
use crate::tree::{TreeUpdate, UpdateModel};

verus! {

/// The action named by a request from assistive technology.
#[derive(PartialEq, Eq, Structural, Clone, Copy, Debug)]
pub enum RequestedAction {
    Focus,
    Default,
    Other,
}

/// An input that bears on the accessibility state: from the window system or
/// from the platform's assistive technology.
#[derive(PartialEq, Eq, Structural, Clone, Copy, Debug)]
pub enum UiEvent {
    /// The window gained (`true`) or lost (`false`) input focus.
    WindowFocusChanged(bool),
    /// The key that moves focus to the other control was pressed.
    NextControlKey,
    /// The key that presses the focused control was pressed.
    ActivateKey,
    /// An action request naming a target by its platform token.
    Request { action: RequestedAction, target: u64, has_data: bool },
}

/// The control a request addresses, if it is well formed: it carries no data
/// and names one of the two controls.
pub open spec fn request_target(target: u64, has_data: bool) -> Option<NodeKey> {
    if has_data {
        None
    } else if target == NodeKey::Button1.token_spec() {
        Some(NodeKey::Button1)
    } else if target == NodeKey::Button2.token_spec() {
        Some(NodeKey::Button2)
    } else {
        None
    }
}

/// The state after event `ev`; malformed and unsupported requests leave it unchanged.
pub open spec fn next_state(s: StateModel, ev: UiEvent) -> StateModel {
    match ev {
        UiEvent::WindowFocusChanged(b) => with_window_focus(s, b),
        UiEvent::NextControlKey => cycled(s),
        UiEvent::ActivateKey => activated(s, s.focus),
        UiEvent::Request { action, target, has_data } => match request_target(target, has_data) {
            Some(t) => match action {
                RequestedAction::Focus => focused_on(s, t),
                RequestedAction::Default => activated(s, t),
                RequestedAction::Other => s,
            },
            None => s,
        },
    }
}

/// The update emitted for event `ev`, or none where the event is ignored.
pub open spec fn emitted(s: StateModel, ev: UiEvent) -> Option<UpdateModel> {
    let n = next_state(s, ev);
    match ev {
        UiEvent::WindowFocusChanged(_) | UiEvent::NextControlKey => Some(focus_update_model(n)),
        UiEvent::ActivateKey => Some(activation_update_model(n, announcement_text(s.focus))),
        UiEvent::Request { action, target, has_data } => match request_target(target, has_data) {
            Some(t) => match action {
                RequestedAction::Focus => Some(focus_update_model(n)),
                RequestedAction::Default => Some(activation_update_model(n, announcement_text(t))),
                RequestedAction::Other => None,
            },
            None => None,
        },
    }
}

impl State {
    /// Applies one input event and returns the update to push to the platform
    /// layer, or `None` where the event is ignored.
    pub fn handle_event(&mut self, ev: UiEvent) -> (r: Option<TreeUpdate>)
        requires
            old(self).wf(),
        ensures
            final(self).wf(),
            final(self)@ == next_state(old(self)@, ev),
            r is Some <==> emitted(old(self)@, ev) is Some,
            r matches Some(u) ==> emitted(old(self)@, ev) == Some(u@),
    {
        match ev {
            UiEvent::WindowFocusChanged(b) => Some(self.set_window_focus(b)),
            UiEvent::NextControlKey => Some(self.cycle_focus()),
            UiEvent::ActivateKey => {
                let id = self.logical_focus();
                Some(self.activate(id))
            },
            UiEvent::Request { action, target, has_data } => {
                if has_data {
                    return None;
                }
                let t = match NodeKey::from_token(target) {
                    Some(k) => k,
                    None => {
                        return None;
                    },
                };
                if !t.is_control() {
                    return None;
                }
                match action {
                    RequestedAction::Focus => Some(self.move_focus(t)),
                    RequestedAction::Default => Some(self.activate(t)),
                    RequestedAction::Other => None,
                }
            },
        }
    }
}

} // verus!
