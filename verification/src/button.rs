use vstd::prelude::*;

use crate::component::{EventTo, RenderingTree};
use crate::event::{EventKind, EventPayload};
use crate::ids::{fresh_id, is_fresh_id};
use crate::platform_node::PlatformNode;

verus! {

/// A button platform node: its node id, its label and its click handler.
#[derive(Debug)]
pub struct Button {
    pub id: u128,
    pub text: String,
    pub on_click: EventTo,
}

impl Button {
    /// A button labelled `text` whose clicks go to `on_click`, with a fresh
    /// node id.
    pub fn render(text: &str, on_click: &EventTo) -> (r: RenderingTree)
        ensures
            r matches RenderingTree::Node(PlatformNode::Button(b)) && b.text@ == text@
                && b.on_click == *on_click && is_fresh_id(b.id),
    {
        let node_id = fresh_id();
        RenderingTree::Node(PlatformNode::Button(Button { id: node_id, text: text.to_owned(), on_click: *on_click }))
    }

    /// A click answers the button's click handler.
    pub fn on_event(&self, event: ButtonEvent) -> (r: Option<EventTo>)
        ensures
            r == Some(self.on_click),
    {
        match event {
            ButtonEvent::Click => Some(self.on_click),
        }
    }
}

/// The event a button raises when it is clicked.
#[derive(Debug, Clone, Copy, PartialEq, Eq, Structural)]
pub enum ButtonEvent {
    Click,
}

#[derive(Debug, Clone, Copy)]
pub struct ButtonClickEvent {}

impl EventKind for ButtonEvent {
    open spec fn payload_of(self) -> EventPayload {
        EventPayload::Button(self)
    }

    open spec fn holds(p: EventPayload) -> bool {
        p is Button
    }

    proof fn lemma_payload(a: Self, b: Self) {
    }

    fn into_payload(self) -> (p: EventPayload) {
        EventPayload::Button(self)
    }

    fn from_payload(p: EventPayload) -> (r: Result<Self, EventPayload>) {
        match p {
            EventPayload::Button(v) => Ok(v),
            other => Err(other),
        }
    }

    fn from_payload_ref(p: &EventPayload) -> (r: Option<&Self>) {
        match p {
            EventPayload::Button(v) => Some(v),
            _ => None,
        }
    }
}

impl EventKind for ButtonClickEvent {
    open spec fn payload_of(self) -> EventPayload {
        EventPayload::ButtonClick(self)
    }

    open spec fn holds(p: EventPayload) -> bool {
        p is ButtonClick
    }

    proof fn lemma_payload(a: Self, b: Self) {
    }

    fn into_payload(self) -> (p: EventPayload) {
        EventPayload::ButtonClick(self)
    }

    fn from_payload(p: EventPayload) -> (r: Result<Self, EventPayload>) {
        match p {
            EventPayload::ButtonClick(v) => Ok(v),
            other => Err(other),
        }
    }

    fn from_payload_ref(p: &EventPayload) -> (r: Option<&Self>) {
        match p {
            EventPayload::ButtonClick(v) => Some(v),
            _ => None,
        }
    }
}

} // verus!
