use vstd::prelude::*;

use crate::component::{Component, ComponentEvent, ComponentTypeId, Props, RenderingTree};
use crate::event::{EventKind, EventPayload};
use crate::me1::{Me1, Me1Props};

verus! {

/// A counter component: it shows its count through a [`Me1`] and counts the
/// clicks on the button below it.
#[derive(Debug)]
pub struct Me {
    pub x: i32,
}

#[derive(Debug, Clone, Copy, PartialEq, Eq, Structural)]
pub struct MeProps {}

impl Me {
    /// The blueprint of a `Me` with `props`.
    pub fn render(props: MeProps) -> (r: RenderingTree)
        ensures
            r == (RenderingTree::ComponentBlueprint {
                component_type_id: ComponentTypeId::Me,
                props: Props::Me(props),
            }),
    {
        RenderingTree::ComponentBlueprint { component_type_id: ComponentTypeId::Me, props: Props::Me(props) }
    }
}

impl Component for Me {
    type Props = MeProps;

    type Event = MeEvent;

    open spec fn can_update(&self, event: MeEvent) -> bool {
        self.x < i32::MAX
    }

    fn create(props: &MeProps) -> (r: Me)
        ensures
            r.x == 0,
    {
        Me { x: 0 }
    }

    /// Renders a [`Me1`] that shows the count and whose button click is
    /// handled by this instance.
    fn render(
        &mut self,
        props: &MeProps,
        rendering_component_id: u128,
        next_event_ref: &mut u64,
    ) -> (r: RenderingTree)
        ensures
            *final(self) == *old(self),
            *final(next_event_ref) == *old(next_event_ref) + 1,
            r matches RenderingTree::ComponentBlueprint {
                component_type_id: ComponentTypeId::Me1,
                props: Props::Me1(p),
            } && p.on_button_click.instance_id == rendering_component_id
                && p.on_button_click.event == ComponentEvent::Me(MeEvent::OnClick)
                && p.value == old(self).x && p.on_button_click.event_ref == *old(next_event_ref),
    {
        let on_button_click = self.event_handler(
            rendering_component_id,
            ComponentEvent::Me(MeEvent::OnClick),
            next_event_ref,
        );
        Me1::render(Me1Props { on_button_click, value: self.x })
    }

    /// A click counts one up.
    fn update(&mut self, event: &MeEvent)
        ensures
            final(self).x == old(self).x + 1,
    {
        match event {
            MeEvent::OnClick => {
                self.x = self.x + 1;
            },
        }
    }
}

#[derive(Debug, Clone, Copy, PartialEq, Eq, Structural)]
pub enum MeEvent {
    OnClick,
}

impl EventKind for MeEvent {
    open spec fn payload_of(self) -> EventPayload {
        EventPayload::Me(self)
    }

    open spec fn holds(p: EventPayload) -> bool {
        p is Me
    }

    proof fn lemma_payload(a: Self, b: Self) {
    }

    fn into_payload(self) -> (p: EventPayload) {
        EventPayload::Me(self)
    }

    fn from_payload(p: EventPayload) -> (r: Result<Self, EventPayload>) {
        match p {
            EventPayload::Me(v) => Ok(v),
            other => Err(other),
        }
    }

    fn from_payload_ref(p: &EventPayload) -> (r: Option<&Self>) {
        match p {
            EventPayload::Me(v) => Some(v),
            _ => None,
        }
    }
}

} // verus!
