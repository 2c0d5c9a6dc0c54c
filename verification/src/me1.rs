use vstd::prelude::*;

use vstd::std_specs::cmp::PartialEqSpecImpl;

use crate::button::Button;
use crate::component::{Component, ComponentTypeId, EventTo, Props, RenderingTree};
use crate::event::{EventKind, EventPayload};
use crate::ids::is_fresh_id;
use crate::label::{decimal, i32_to_string};
use crate::platform_node::PlatformNode;

verus! {

/// A component that shows a button labelled with its own count and the value
/// it is given.
#[derive(Debug)]
pub struct Me1 {
    pub x: i32,
}

#[derive(Debug, Clone, Copy)]
pub struct Me1Props {
    pub on_button_click: EventTo,
    pub value: i32,
}

impl PartialEq for Me1Props {
    fn eq(&self, other: &Self) -> (r: bool) {
        self.on_button_click == other.on_button_click && self.value == other.value
    }
}

impl PartialEqSpecImpl for Me1Props {
    open spec fn obeys_eq_spec() -> bool {
        true
    }

    open spec fn eq_spec(&self, other: &Self) -> bool {
        self.on_button_click.instance_id == other.on_button_click.instance_id
            && self.on_button_click.event_ref == other.on_button_click.event_ref
            && self.value == other.value
    }
}

/// The label of the button that a [`Me1`] with count `x` and value `value`
/// shows.
pub open spec fn button_label(x: int, value: int) -> Seq<char> {
    "I am button! self.x: "@ + decimal(x) + ", props.value: "@ + decimal(value)
}

impl Me1 {
    /// The blueprint of a `Me1` with `props`.
    pub fn render(props: Me1Props) -> (r: RenderingTree)
        ensures
            r == (RenderingTree::ComponentBlueprint {
                component_type_id: ComponentTypeId::Me1,
                props: Props::Me1(props),
            }),
    {
        RenderingTree::ComponentBlueprint { component_type_id: ComponentTypeId::Me1, props: Props::Me1(props) }
    }
}

impl Component for Me1 {
    type Props = Me1Props;

    type Event = Me1Event;

    open spec fn can_update(&self, event: Me1Event) -> bool {
        self.x < i32::MAX
    }

    fn create(props: &Me1Props) -> (r: Me1)
        ensures
            r.x == 0,
    {
        Me1 { x: 0 }
    }

    /// Renders a button labelled with the count and the given value, whose
    /// clicks go to the handler in the props.
    fn render(
        &mut self,
        props: &Me1Props,
        rendering_component_id: u128,
        next_event_ref: &mut u64,
    ) -> (r: RenderingTree)
        ensures
            *final(self) == *old(self),
            *final(next_event_ref) == *old(next_event_ref),
            r matches RenderingTree::Node(PlatformNode::Button(b)) && b.text@ == button_label(
                old(self).x as int,
                props.value as int,
            ) && b.on_click == props.on_button_click && is_fresh_id(b.id),
    {
        let x_text = i32_to_string(self.x);
        let value_text = i32_to_string(props.value);
        let mut label = "I am button! self.x: ".to_owned();
        label.append(x_text.as_str());
        label.append(", props.value: ");
        label.append(value_text.as_str());
        Button::render(label.as_str(), &props.on_button_click)
    }

    /// A click counts one up.
    fn update(&mut self, event: &Me1Event)
        ensures
            final(self).x == old(self).x + 1,
    {
        match event {
            Me1Event::OnClick => {
                self.x = self.x + 1;
            },
        }
    }
}

#[derive(Debug, Clone, Copy, PartialEq, Eq, Structural)]
pub enum Me1Event {
    OnClick,
}

impl EventKind for Me1Event {
    open spec fn payload_of(self) -> EventPayload {
        EventPayload::Me1(self)
    }

    open spec fn holds(p: EventPayload) -> bool {
        p is Me1
    }

    proof fn lemma_payload(a: Self, b: Self) {
    }

    fn into_payload(self) -> (p: EventPayload) {
        EventPayload::Me1(self)
    }

    fn from_payload(p: EventPayload) -> (r: Result<Self, EventPayload>) {
        match p {
            EventPayload::Me1(v) => Ok(v),
            other => Err(other),
        }
    }

    fn from_payload_ref(p: &EventPayload) -> (r: Option<&Self>) {
        match p {
            EventPayload::Me1(v) => Some(v),
            _ => None,
        }
    }
}

} // verus!
