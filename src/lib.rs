//! Accessibility state model for a small window with two buttons and a live
//! announcement region: node identifiers, node descriptions, tree updates and
//! the focus / announcement state machine that produces them.
pub mod dispatch;
pub mod laws;
pub mod node;
pub mod node_id;
pub mod state;
pub mod tree;

pub use dispatch::{RequestedAction, UiEvent};
pub use node::{build_announcement, build_button, button_bounds, Bounds, NodeSpec, Role};
pub use node_id::{NodeKey, INITIAL_FOCUS};
pub use state::{State, WINDOW_TITLE};
pub use tree::TreeUpdate;
