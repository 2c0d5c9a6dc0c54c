use vstd::prelude::*;

use crate::component::{Component, ComponentTypeId, Props, RenderingTree};
use crate::event::{EventKind, EventPayload};
use crate::me::{Me, MeProps};

verus! {

/// The root component of the demo application.
#[derive(Debug)]
pub struct MyRoot {
    pub x: i32,
}

#[derive(Debug, Clone, Copy)]
pub struct MyRootProps {}

impl Component for MyRoot {
    type Props = MyRootProps;

    type Event = MyRootEvent;

    open spec fn can_update(&self, event: MyRootEvent) -> bool {
        true
    }

    fn create(props: &MyRootProps) -> (r: MyRoot)
        ensures
            r.x == 0,
    {
        MyRoot { x: 0 }
    }

    /// The root renders a [`Me`] with empty props.
    fn render(
        &mut self,
        props: &MyRootProps,
        rendering_component_id: u128,
        next_event_ref: &mut u64,
    ) -> (r: RenderingTree)
        ensures
            *final(self) == *old(self),
            *final(next_event_ref) == *old(next_event_ref),
            r == (RenderingTree::ComponentBlueprint {
                component_type_id: ComponentTypeId::Me,
                props: Props::Me(MeProps {}),
            }),
    {
        Me::render(MeProps {})
    }

    /// A click on the root changes no state.
    fn update(&mut self, event: &MyRootEvent)
        ensures
            *final(self) == *old(self),
    {
        match event {
            MyRootEvent::OnClick => {},
        }
    }
}

#[derive(Debug, Clone, Copy, PartialEq, Eq, Structural)]
pub enum MyRootEvent {
    OnClick,
}

impl EventKind for MyRootEvent {
    open spec fn payload_of(self) -> EventPayload {
        EventPayload::MyRoot(self)
    }

    open spec fn holds(p: EventPayload) -> bool {
        p is MyRoot
    }

    proof fn lemma_payload(a: Self, b: Self) {
    }

    fn into_payload(self) -> (p: EventPayload) {
        EventPayload::MyRoot(self)
    }

    fn from_payload(p: EventPayload) -> (r: Result<Self, EventPayload>) {
        match p {
            EventPayload::MyRoot(v) => Ok(v),
            other => Err(other),
        }
    }

    fn from_payload_ref(p: &EventPayload) -> (r: Option<&Self>) {
        match p {
            EventPayload::MyRoot(v) => Some(v),
            _ => None,
        }
    }
}

} // verus!
