use vstd::prelude::*;

verus! {

/// The closed set of addressable elements of the window's accessibility tree.
#[derive(PartialEq, Eq, Structural, Clone, Copy, Debug)]
pub enum NodeKey {
    Window,
    Button1,
    Button2,
    Announcement,
}

/// The element that holds logical focus when the program starts.
pub const INITIAL_FOCUS: NodeKey = NodeKey::Button1;

impl NodeKey {
    /// The stable non-zero integer by which the platform layer knows the element.
    pub open spec fn token_spec(self) -> u64 {
        match self {
            NodeKey::Window => 1,
            NodeKey::Button1 => 2,
            NodeKey::Button2 => 3,
            NodeKey::Announcement => 4,
        }
    }

    /// The two interactive controls, the only valid focus and activation targets.
    pub open spec fn is_button(self) -> bool {
        self == NodeKey::Button1 || self == NodeKey::Button2
    }

    pub fn token(self) -> (r: u64)
        ensures
            r == self.token_spec(),
            r != 0,
    {
        match self {
            NodeKey::Window => 1,
            NodeKey::Button1 => 2,
            NodeKey::Button2 => 3,
            NodeKey::Announcement => 4,
        }
    }

    /// The element known to the platform layer by `t`, if any.
    pub fn from_token(t: u64) -> (r: Option<NodeKey>)
        ensures
            r matches Some(k) ==> k.token_spec() == t,
            r is None <==> (t == 0 || t > 4),
    {
        if t == 1 {
            Some(NodeKey::Window)
        } else if t == 2 {
            Some(NodeKey::Button1)
        } else if t == 3 {
            Some(NodeKey::Button2)
        } else if t == 4 {
            Some(NodeKey::Announcement)
        } else {
            None
        }
    }

    pub fn is_control(self) -> (r: bool)
        ensures
            r == self.is_button(),
    {
        match self {
            NodeKey::Button1 | NodeKey::Button2 => true,
            _ => false,
        }
    }
}

} // verus!
