use vstd::prelude::*;
use crate::node_id::NodeKey;

verus! {

/// What kind of element a node describes.
#[derive(PartialEq, Eq, Structural, Clone, Copy, Debug)]
pub enum Role {
    Window,
    Button,
    StaticText,
}

/// A bounding rectangle in logical pixels, corners `(x0, y0)` and `(x1, y1)`.
#[derive(PartialEq, Eq, Structural, Clone, Copy, Debug)]
pub struct Bounds {
    pub x0: u32,
    pub y0: u32,
    pub x1: u32,
    pub y1: u32,
}

/// A description of one element of the accessibility tree, rebuilt from the
/// current state each time it is emitted.
#[derive(Clone, Debug)]
pub struct NodeSpec {
    pub role: Role,
    pub name: String,
    pub bounds: Option<Bounds>,
    /// Supports the "focus" action.
    pub focusable: bool,
    /// Its default action is a click.
    pub clickable: bool,
    /// Changes to its name are announced politely by assistive technology.
    pub polite_live: bool,
    pub children: Vec<NodeKey>,
}

/// The mathematical value of a `NodeSpec`.
pub struct NodeModel {
    pub role: Role,
    pub name: Seq<char>,
    pub bounds: Option<Bounds>,
    pub focusable: bool,
    pub clickable: bool,
    pub polite_live: bool,
    pub children: Seq<NodeKey>,
}

impl View for NodeSpec {
    type V = NodeModel;

    open spec fn view(&self) -> NodeModel {
        NodeModel {
            role: self.role,
            name: self.name@,
            bounds: self.bounds,
            focusable: self.focusable,
            clickable: self.clickable,
            polite_live: self.polite_live,
            children: self.children@,
        }
    }
}

/// Where each button is drawn.
pub open spec fn button_bounds_spec(id: NodeKey) -> Bounds {
    if id == NodeKey::Button1 {
        Bounds { x0: 20, y0: 20, x1: 100, y1: 60 }
    } else {
        Bounds { x0: 20, y0: 60, x1: 100, y1: 100 }
    }
}

pub fn button_bounds(id: NodeKey) -> (r: Bounds)
    requires
        id.is_button(),
    ensures
        r == button_bounds_spec(id),
{
    if id == NodeKey::Button1 {
        Bounds { x0: 20, y0: 20, x1: 100, y1: 60 }
    } else {
        Bounds { x0: 20, y0: 60, x1: 100, y1: 100 }
    }
}

/// The description of button `id` under the name `name`.
pub open spec fn button_model(id: NodeKey, name: Seq<char>) -> NodeModel {
    NodeModel {
        role: Role::Button,
        name,
        bounds: Some(button_bounds_spec(id)),
        focusable: true,
        clickable: true,
        polite_live: false,
        children: Seq::empty(),
    }
}

/// The description of the live region that reads out `text`.
pub open spec fn announcement_model(text: Seq<char>) -> NodeModel {
    NodeModel {
        role: Role::StaticText,
        name: text,
        bounds: None,
        focusable: false,
        clickable: false,
        polite_live: true,
        children: Seq::empty(),
    }
}

pub fn build_button(id: NodeKey, name: &str) -> (r: NodeSpec)
    requires
        id.is_button(),
    ensures
        r@ == button_model(id, name@),
{
    NodeSpec {
        role: Role::Button,
        name: String::from_str(name),
        bounds: Some(button_bounds(id)),
        focusable: true,
        clickable: true,
        polite_live: false,
        children: Vec::new(),
    }
}

pub fn build_announcement(text: &str) -> (r: NodeSpec)
    ensures
        r@ == announcement_model(text@),
{
    NodeSpec {
        role: Role::StaticText,
        name: String::from_str(text),
        bounds: None,
        focusable: false,
        clickable: false,
        polite_live: true,
        children: Vec::new(),
    }
}

} // verus!
