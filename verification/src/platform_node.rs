use vstd::prelude::*;

use crate::button::{Button, ButtonEvent};
use crate::component::EventTo;
use crate::event::{Event, EventKind};
use crate::text::Text;

verus! {

/// A node that the platform shows.
#[derive(Debug)]
pub enum PlatformNode {
    Button(Button),
    Text(Text),
}

impl PlatformNode {
    pub open spec fn node_id(self) -> u128 {
        match self {
            PlatformNode::Button(button) => button.id,
            PlatformNode::Text(text) => text.id,
        }
    }

    /// The handler that `event` triggers on this node: the click handler of a
    /// button. Only buttons take events, and only button events.
    pub fn on_event(&self, event: Event) -> (r: Option<EventTo>)
        requires
            *self is Button,
            ButtonEvent::holds(event@),
        ensures
            *self matches PlatformNode::Button(b) && r == Some(b.on_click),
    {
        match self {
            PlatformNode::Button(button) => button.on_event(event.downcast().unwrap()),
            PlatformNode::Text(_) => vstd::pervasive::unreached(),
        }
    }

    pub fn id(&self) -> (r: u128)
        ensures
            r == self.node_id(),
    {
        match self {
            PlatformNode::Button(button) => button.id,
            PlatformNode::Text(text) => text.id,
        }
    }
}

} // verus!
