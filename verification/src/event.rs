//! Dynamically typed events: an [`Event`] carries one value of any of the
//! event types the framework knows, and can be tested and taken apart by type.

use vstd::prelude::*;

use crate::button::{ButtonClickEvent, ButtonEvent};
use crate::me::MeEvent;
use crate::me1::Me1Event;
use crate::my_root::MyRootEvent;

verus! {

/// The value that an [`Event`] carries.
#[derive(Debug)]
pub enum EventPayload {
    Button(ButtonEvent),
    ButtonClick(ButtonClickEvent),
    MyRoot(MyRootEvent),
    Me(MeEvent),
    Me1(Me1Event),
    Namsex(Box<NamsexEvent>),
}

/// A type whose values an [`Event`] can carry.
///
/// `payload_of` is how a value of the type is stored in an event, and
/// `holds` tells whether a payload stores a value of the type.
pub trait EventKind: Sized {
    spec fn payload_of(self) -> EventPayload;

    spec fn holds(p: EventPayload) -> bool;

    /// A value is stored in a payload that holds its type, and different
    /// values are stored in different payloads.
    proof fn lemma_payload(a: Self, b: Self)
        ensures
            Self::holds(a.payload_of()),
            a.payload_of() == b.payload_of() ==> a == b,
    ;

    fn into_payload(self) -> (p: EventPayload)
        ensures
            p == self.payload_of(),
            Self::holds(p),
    ;

    fn from_payload(p: EventPayload) -> (r: Result<Self, EventPayload>)
        ensures
            match r {
                Ok(v) => Self::holds(p) && v.payload_of() == p,
                Err(q) => !Self::holds(p) && q == p,
            },
    ;

    fn from_payload_ref(p: &EventPayload) -> (r: Option<&Self>)
        ensures
            r is Some <==> Self::holds(*p),
            r matches Some(v) ==> v.payload_of() == *p,
    ;
}

/// Events that the framework itself routes.
#[derive(Debug)]
pub enum NamsexEvent {
    /// `event` was raised by the platform node whose id is `node_id`.
    NodeEvent { node_id: u128, event: Event },
}

impl EventKind for NamsexEvent {
    open spec fn payload_of(self) -> EventPayload {
        EventPayload::Namsex(Box::new(self))
    }

    open spec fn holds(p: EventPayload) -> bool {
        p is Namsex
    }

    proof fn lemma_payload(a: Self, b: Self) {
    }

    fn into_payload(self) -> (p: EventPayload) {
        EventPayload::Namsex(Box::new(self))
    }

    fn from_payload(p: EventPayload) -> (r: Result<Self, EventPayload>) {
        match p {
            EventPayload::Namsex(b) => Ok(*b),
            other => Err(other),
        }
    }

    fn from_payload_ref(p: &EventPayload) -> (r: Option<&Self>) {
        match p {
            EventPayload::Namsex(b) => Some(&**b),
            _ => None,
        }
    }
}

/// An event carrying one value of any [`EventKind`].
#[derive(Debug)]
pub struct Event {
    inner: EventPayload,
}

impl View for Event {
    type V = EventPayload;

    closed spec fn view(&self) -> EventPayload {
        self.inner
    }
}

impl Event {
    /// Wraps `value` in an event.
    pub fn new<T: EventKind>(value: T) -> (e: Event)
        ensures
            e@ == value.payload_of(),
    {
        Event { inner: value.into_payload() }
    }

    /// Calls `callback` with the carried value if it is a `T` and answers
    /// `Break`; otherwise hands the event on in `Continue`.
    pub fn is<T: EventKind>(self, callback: impl FnOnce(T)) -> (r: EventIsChain)
        requires
            forall|v: T| v.payload_of() == self@ ==> call_requires(callback, (v,)),
        ensures
            r == EventIsChain::Continue(self).step::<T>(),
            T::holds(self@) ==> exists|v: T| v.payload_of() == self@ && call_ensures(callback, (v,), ()),
    {
        EventIsChain::Continue(self).is(callback)
    }

    /// A reference to the carried value if it is a `T`.
    pub fn downcast_ref<T: EventKind>(&self) -> (r: Option<&T>)
        ensures
            r is Some <==> T::holds(self@),
            r matches Some(v) ==> v.payload_of() == self@,
    {
        T::from_payload_ref(&self.inner)
    }

    /// The carried value if it is a `T`, else the event itself.
    pub fn downcast<T: EventKind>(self) -> (r: Result<T, Self>)
        ensures
            r is Ok <==> T::holds(self@),
            r matches Ok(v) ==> v.payload_of() == self@,
            r matches Err(e) ==> e == self,
    {
        match T::from_payload(self.inner) {
            Ok(v) => Ok(v),
            Err(inner) => Err(Event { inner }),
        }
    }
}

/// The state of a chain of type tests on an event: `Continue` holds the event
/// while no test has matched, `Break` follows the first match.
#[derive(Debug)]
pub enum EventIsChain {
    Continue(Event),
    Break,
}

impl EventIsChain {
    /// The chain after a test against `T`: it breaks where it held an event
    /// of type `T`, and stays as it is otherwise.
    pub open spec fn step<T: EventKind>(self) -> EventIsChain {
        match self {
            EventIsChain::Continue(e) => if T::holds(e@) {
                EventIsChain::Break
            } else {
                self
            },
            EventIsChain::Break => EventIsChain::Break,
        }
    }

    /// Whether a test against `T` hands the event's value to its callback:
    /// only where the chain still holds the event and the event is a `T`.
    pub open spec fn calls<T: EventKind>(self) -> bool {
        self matches EventIsChain::Continue(e) && T::holds(e@)
    }

    /// Tests the held event against `T` as [`Event::is`] does; after a match
    /// the chain stays at `Break` and `callback` is not called.
    pub fn is<T: EventKind>(self, callback: impl FnOnce(T)) -> (r: EventIsChain)
        requires
            self matches EventIsChain::Continue(e) ==> forall|v: T|
                v.payload_of() == e@ ==> call_requires(callback, (v,)),
        ensures
            r == self.step::<T>(),
            self.calls::<T>() ==> exists|v: T|
                v.payload_of() == self->Continue_0@ && call_ensures(callback, (v,), ()),
    {
        match self {
            EventIsChain::Continue(event) => {
                match event.downcast::<T>() {
                    Ok(casted_event) => {
                        callback(casted_event);
                        EventIsChain::Break
                    },
                    Err(this) => EventIsChain::Continue(this),
                }
            },
            EventIsChain::Break => EventIsChain::Break,
        }
    }
}

/// Two type tests in a chain on one event: the first runs its callback
/// exactly where the event is of its type; the second runs its callback
/// exactly where the event is of its type and not of the first; the chain
/// breaks where either type matched, and otherwise still holds the event.
pub proof fn law_two_tests_in_a_chain<A: EventKind, B: EventKind>(e: Event)
    ensures
        EventIsChain::Continue(e).calls::<A>() == A::holds(e@),
        EventIsChain::Continue(e).step::<A>().calls::<B>() == (!A::holds(e@) && B::holds(e@)),
        EventIsChain::Continue(e).step::<A>().step::<B>() is Break <==> (A::holds(e@) || B::holds(
            e@,
        )),
        !(A::holds(e@) || B::holds(e@)) ==> EventIsChain::Continue(e).step::<A>().step::<B>()
            == EventIsChain::Continue(e),
{
}

/// The event that reports `event` raised by the platform node `node_id`.
pub fn node_event<T: EventKind>(node_id: u128, event: T) -> (e: Event)
    ensures
        e@ matches EventPayload::Namsex(b) && b.node_id() == node_id && b.inner_event()@
            == event.payload_of(),
{
    Event::new(NamsexEvent::NodeEvent { node_id, event: Event::new(event) })
}

impl NamsexEvent {
    pub open spec fn node_id(self) -> u128 {
        match self {
            NamsexEvent::NodeEvent { node_id, .. } => node_id,
        }
    }

    pub open spec fn inner_event(self) -> Event {
        match self {
            NamsexEvent::NodeEvent { event, .. } => event,
        }
    }
}

/// An event made from a value and taken apart as the value's type gives the
/// value back: the type test succeeds and the value is the one stored.
pub proof fn law_downcast_gives_back<T: EventKind>(value: T, e: Event, back: T)
    requires
        e@ == value.payload_of(),
        back.payload_of() == e@,
    ensures
        T::holds(e@),
        back == value,
{
    T::lemma_payload(value, back);
}

} // verus!
