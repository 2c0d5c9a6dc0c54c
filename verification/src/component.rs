//! Components: their kinds, props, events and the handlers that route an
//! event back to the component that created it.

use vstd::prelude::*;
use vstd::std_specs::cmp::PartialEqSpecImpl;

use crate::ids::{fresh_id, is_fresh_id};
use crate::me::{Me, MeEvent, MeProps};
use crate::me1::{Me1, Me1Event, Me1Props};
use crate::my_root::{MyRoot, MyRootEvent, MyRootProps};
use crate::me1::button_label;
use crate::platform_node::PlatformNode;

verus! {

/// The kind of a component, standing for its type.
#[derive(Debug, Clone, Copy, PartialEq, Eq, Structural)]
pub enum ComponentTypeId {
    MyRoot,
    Me,
    Me1,
}

impl ComponentTypeId {
    /// How many component levels can stand below a component of this kind:
    /// a component only renders components of a smaller depth.
    pub open spec fn depth(self) -> nat {
        match self {
            ComponentTypeId::MyRoot => 2,
            ComponentTypeId::Me => 1,
            ComponentTypeId::Me1 => 0,
        }
    }
}

/// The props of a component of any kind.
#[derive(Debug, Clone, Copy)]
pub enum Props {
    MyRoot(MyRootProps),
    Me(MeProps),
    Me1(Me1Props),
}

impl Props {
    /// The kind of component these props belong to.
    pub open spec fn kind(self) -> ComponentTypeId {
        match self {
            Props::MyRoot(_) => ComponentTypeId::MyRoot,
            Props::Me(_) => ComponentTypeId::Me,
            Props::Me1(_) => ComponentTypeId::Me1,
        }
    }
}

/// An event addressed to a component of any kind.
#[derive(Debug, Clone, Copy, PartialEq, Eq, Structural)]
pub enum ComponentEvent {
    MyRoot(MyRootEvent),
    Me(MeEvent),
    Me1(Me1Event),
}

impl ComponentEvent {
    /// The kind of component that handles this event.
    pub open spec fn kind(self) -> ComponentTypeId {
        match self {
            ComponentEvent::MyRoot(_) => ComponentTypeId::MyRoot,
            ComponentEvent::Me(_) => ComponentTypeId::Me,
            ComponentEvent::Me1(_) => ComponentTypeId::Me1,
        }
    }
}

/// A handler: `event` is delivered to the component instance `instance_id`.
///
/// The event value is shared between the copies of one handler: `event_ref`
/// identifies that shared value, and two handlers are equal when they target
/// the same instance and share the same event value. Each new handler takes
/// the next number of a counter that only grows, so handlers made by
/// separate calls never share an event value.
#[derive(Debug, Clone, Copy)]
pub struct EventTo {
    pub instance_id: u128,
    pub event: ComponentEvent,
    pub event_ref: u64,
}

impl PartialEq for EventTo {
    fn eq(&self, other: &Self) -> (r: bool) {
        self.instance_id == other.instance_id && self.event_ref == other.event_ref
    }
}

impl PartialEqSpecImpl for EventTo {
    open spec fn obeys_eq_spec() -> bool {
        true
    }

    open spec fn eq_spec(&self, other: &Self) -> bool {
        self.instance_id == other.instance_id && self.event_ref == other.event_ref
    }
}

/// What a render produces: a platform node, or the blueprint of a child
/// component (its kind and props) that is still to be created and rendered.
#[derive(Debug)]
pub enum RenderingTree {
    Node(PlatformNode),
    ComponentBlueprint { component_type_id: ComponentTypeId, props: Props },
}

/// A component type: it is created from props, renders with props, and
/// updates its state on its events.
pub trait Component: Sized {
    type Props;

    type Event;

    /// Whether `update` can take `event` in this state.
    spec fn can_update(&self, event: Self::Event) -> bool;

    fn create(props: &Self::Props) -> Self;

    /// Renders with `props`; `rendering_component_id` is the id of the
    /// instance being rendered, which handlers made here are addressed to,
    /// and `next_event_ref` the counter that new handlers take their shared
    /// event value from.
    fn render(
        &mut self,
        props: &Self::Props,
        rendering_component_id: u128,
        next_event_ref: &mut u64,
    ) -> RenderingTree
        requires
            *old(next_event_ref) < u64::MAX,
    ;

    fn update(&mut self, event: &Self::Event)
        requires
            old(self).can_update(*event),
    ;

    /// A new handler that delivers `event` to the instance being rendered.
    /// Its shared event value is new: it takes the counter's number, and the
    /// counter moves on.
    fn event_handler(
        &self,
        rendering_component_id: u128,
        event: ComponentEvent,
        next_event_ref: &mut u64,
    ) -> (r: EventTo)
        requires
            *old(next_event_ref) < u64::MAX,
        ensures
            r.instance_id == rendering_component_id,
            r.event == event,
            r.event_ref == *old(next_event_ref),
            *final(next_event_ref) == *old(next_event_ref) + 1,
    {
        let event_ref = *next_event_ref;
        *next_event_ref = event_ref + 1;
        EventTo { instance_id: rendering_component_id, event, event_ref }
    }
}

/// A component instance of any kind.
#[derive(Debug)]
pub enum InternalComponent {
    MyRoot(MyRoot),
    Me(Me),
    Me1(Me1),
}

/// The state of a newly created component of kind `kind`.
pub open spec fn created(kind: ComponentTypeId) -> InternalComponent {
    match kind {
        ComponentTypeId::MyRoot => InternalComponent::MyRoot(MyRoot { x: 0 }),
        ComponentTypeId::Me => InternalComponent::Me(Me { x: 0 }),
        ComponentTypeId::Me1 => InternalComponent::Me1(Me1 { x: 0 }),
    }
}

impl InternalComponent {
    pub open spec fn kind(self) -> ComponentTypeId {
        match self {
            InternalComponent::MyRoot(_) => ComponentTypeId::MyRoot,
            InternalComponent::Me(_) => ComponentTypeId::Me,
            InternalComponent::Me1(_) => ComponentTypeId::Me1,
        }
    }

    /// How many handlers a render of this component makes.
    pub open spec fn handlers_made(self) -> int {
        match self {
            InternalComponent::Me(_) => 1,
            _ => 0,
        }
    }

    /// `rt` is what this component renders with `props` as the instance
    /// `rendering_component_id`, where a new handler takes the shared event
    /// value `event_ref`, up to the value of the node id of a new button,
    /// which is drawn at random and carries the marks of [`fresh_id`].
    pub open spec fn renders(
        self,
        props: Props,
        rendering_component_id: u128,
        event_ref: int,
        rt: RenderingTree,
    ) -> bool {
        match self {
            InternalComponent::MyRoot(_) => rt == (RenderingTree::ComponentBlueprint {
                component_type_id: ComponentTypeId::Me,
                props: Props::Me(MeProps {}),
            }),
            InternalComponent::Me(me) => rt matches RenderingTree::ComponentBlueprint {
                component_type_id: ComponentTypeId::Me1,
                props: Props::Me1(p),
            } && p.on_button_click.instance_id == rendering_component_id
                && p.on_button_click.event == ComponentEvent::Me(MeEvent::OnClick) && p.value == me.x
                && p.on_button_click.event_ref == event_ref,
            InternalComponent::Me1(me1) => props matches Props::Me1(p) && rt matches RenderingTree::Node(
                PlatformNode::Button(b),
            ) && b.text@ == button_label(me1.x as int, p.value as int) && b.on_click
                == p.on_button_click && is_fresh_id(b.id),
        }
    }

    /// Whether this component can take `event`: the event is of its kind and
    /// its count has room to grow.
    pub open spec fn accepts(self, event: ComponentEvent) -> bool {
        match (self, event) {
            (InternalComponent::MyRoot(_), ComponentEvent::MyRoot(_)) => true,
            (InternalComponent::Me(me), ComponentEvent::Me(_)) => me.x < i32::MAX,
            (InternalComponent::Me1(me1), ComponentEvent::Me1(_)) => me1.x < i32::MAX,
            _ => false,
        }
    }

    /// The state after taking `event`.
    pub open spec fn updated(self, event: ComponentEvent) -> InternalComponent {
        match self {
            InternalComponent::MyRoot(r) => InternalComponent::MyRoot(r),
            InternalComponent::Me(me) => InternalComponent::Me(Me { x: (me.x + 1) as i32 }),
            InternalComponent::Me1(me1) => InternalComponent::Me1(Me1 { x: (me1.x + 1) as i32 }),
        }
    }

    /// Renders with `props`, which must be of this component's kind; new
    /// handlers take their shared event values from `next_event_ref`.
    pub fn render(
        &mut self,
        props: &Props,
        rendering_component_id: u128,
        next_event_ref: &mut u64,
    ) -> (rt: RenderingTree)
        requires
            props.kind() == old(self).kind(),
            *old(next_event_ref) < u64::MAX,
        ensures
            *final(self) == *old(self),
            old(self).renders(*props, rendering_component_id, *old(next_event_ref) as int, rt),
            *final(next_event_ref) == *old(next_event_ref) + old(self).handlers_made(),
    {
        match self {
            InternalComponent::MyRoot(r) => match props {
                Props::MyRoot(p) => Component::render(r, p, rendering_component_id, next_event_ref),
                _ => vstd::pervasive::unreached(),
            },
            InternalComponent::Me(me) => match props {
                Props::Me(p) => Component::render(me, p, rendering_component_id, next_event_ref),
                _ => vstd::pervasive::unreached(),
            },
            InternalComponent::Me1(me1) => match props {
                Props::Me1(p) => Component::render(me1, p, rendering_component_id, next_event_ref),
                _ => vstd::pervasive::unreached(),
            },
        }
    }

    /// Updates the state with `event`, which must be of this component's kind.
    pub fn update(&mut self, event: &ComponentEvent)
        requires
            old(self).accepts(*event),
        ensures
            *final(self) == old(self).updated(*event),
    {
        match self {
            InternalComponent::MyRoot(r) => match event {
                ComponentEvent::MyRoot(e) => Component::update(r, e),
                _ => vstd::pervasive::unreached(),
            },
            InternalComponent::Me(me) => match event {
                ComponentEvent::Me(e) => Component::update(me, e),
                _ => vstd::pervasive::unreached(),
            },
            InternalComponent::Me1(me1) => match event {
                ComponentEvent::Me1(e) => Component::update(me1, e),
                _ => vstd::pervasive::unreached(),
            },
        }
    }

    /// Whether this component can take `event` (see [`InternalComponent::accepts`]).
    pub fn can_take(&self, event: &ComponentEvent) -> (r: bool)
        ensures
            r == self.accepts(*event),
    {
        match (self, event) {
            (InternalComponent::MyRoot(_), ComponentEvent::MyRoot(_)) => true,
            (InternalComponent::Me(me), ComponentEvent::Me(_)) => me.x < i32::MAX,
            (InternalComponent::Me1(me1), ComponentEvent::Me1(_)) => me1.x < i32::MAX,
            _ => false,
        }
    }

    /// A new component of the kind of `props`, created from them.
    pub fn create(props: &Props) -> (r: InternalComponent)
        ensures
            r == created(props.kind()),
    {
        match props {
            Props::MyRoot(p) => InternalComponent::MyRoot(MyRoot::create(p)),
            Props::Me(p) => InternalComponent::Me(Me::create(p)),
            Props::Me1(p) => InternalComponent::Me1(Me1::create(p)),
        }
    }

    pub fn component_type_id(&self) -> (k: ComponentTypeId)
        ensures
            k == self.kind(),
    {
        match self {
            InternalComponent::MyRoot(_) => ComponentTypeId::MyRoot,
            InternalComponent::Me(_) => ComponentTypeId::Me,
            InternalComponent::Me1(_) => ComponentTypeId::Me1,
        }
    }
}

/// A component instance with its instance id.
#[derive(Debug)]
pub struct ComponentWrapper {
    pub id: u128,
    pub internal: InternalComponent,
}

impl ComponentWrapper {
    /// Wraps `internal` under a fresh instance id.
    pub fn new(internal: InternalComponent) -> (r: Self)
        ensures
            r.internal == internal,
            is_fresh_id(r.id),
    {
        ComponentWrapper { id: fresh_id(), internal }
    }

    /// Renders the component as the instance `self.id`; new handlers take
    /// their shared event values from `next_event_ref`.
    pub fn render(&mut self, props: &Props, next_event_ref: &mut u64) -> (rt: RenderingTree)
        requires
            props.kind() == old(self).internal.kind(),
            *old(next_event_ref) < u64::MAX,
        ensures
            *final(self) == *old(self),
            old(self).internal.renders(*props, old(self).id, *old(next_event_ref) as int, rt),
            *final(next_event_ref) == *old(next_event_ref) + old(self).internal.handlers_made(),
    {
        let id = self.id;
        self.internal.render(props, id, next_event_ref)
    }

    pub fn component_type_id(&self) -> (k: ComponentTypeId)
        ensures
            k == self.internal.kind(),
    {
        self.internal.component_type_id()
    }
}

} // verus!
