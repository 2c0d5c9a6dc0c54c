//! A small component framework: components render into trees of platform
//! nodes, and events raised by platform nodes are routed back to the
//! component that owns the handler, which is then updated and re-rendered in
//! place. A component whose kind and props did not change keeps the subtree
//! it rendered before.
//!
//! The platform drives the loop: it mounts a root with [`mount`], shows the
//! tree (the decisions of that pass come from [`sync_action`]), and hands
//! every event that a shown node raises to [`handle_event`].

mod button;
mod component;
pub mod event;
mod ids;
mod label;
mod laws;
mod me;
mod me1;
mod my_root;
mod platform_node;
mod reconcile;
mod sync;
mod text;
mod tree_node;

pub use button::{Button, ButtonClickEvent, ButtonEvent};
pub use component::{
    Component, ComponentEvent, ComponentTypeId, ComponentWrapper, EventTo, InternalComponent, Props,
    RenderingTree,
};
pub use me::{Me, MeEvent, MeProps};
pub use me1::{Me1, Me1Event, Me1Props};
pub use my_root::{MyRoot, MyRootEvent, MyRootProps};
pub use platform_node::PlatformNode;
pub use reconcile::{can_handle, handle_event, mount};
pub use sync::{sync_action, update_button, ButtonUpdate, SyncAction};
pub use text::Text;
pub use tree_node::TreeNode;
