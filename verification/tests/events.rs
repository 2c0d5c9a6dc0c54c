use std::cell::Cell;

use namsex_core::event::{node_event, Event, EventIsChain, EventPayload, NamsexEvent};
use namsex_core::{ButtonClickEvent, ButtonEvent, Me1Event, MeEvent, MyRootEvent};

#[test]
fn downcast_gives_the_value_back() {
    let event = Event::new(MeEvent::OnClick);
    assert!(matches!(event.downcast::<MeEvent>(), Ok(MeEvent::OnClick)));
}

#[test]
fn downcast_to_another_type_gives_the_event_back() {
    let event = Event::new(ButtonEvent::Click);
    let back = event.downcast::<MeEvent>().unwrap_err();
    assert!(matches!(back.downcast::<ButtonEvent>(), Ok(ButtonEvent::Click)));
}

#[test]
fn downcast_ref_tests_the_type() {
    let event = Event::new(ButtonClickEvent {});
    assert!(event.downcast_ref::<ButtonClickEvent>().is_some());
    assert!(event.downcast_ref::<ButtonEvent>().is_none());
    assert!(event.downcast_ref::<NamsexEvent>().is_none());
    let event = Event::new(Me1Event::OnClick);
    assert_eq!(event.downcast_ref::<Me1Event>(), Some(&Me1Event::OnClick));
}

#[test]
fn is_calls_the_callback_on_a_match_and_breaks() {
    let called = Cell::new(0);
    let chain = Event::new(MyRootEvent::OnClick).is(|e: MyRootEvent| {
        assert_eq!(e, MyRootEvent::OnClick);
        called.set(called.get() + 1);
    });
    assert!(matches!(chain, EventIsChain::Break));
    assert_eq!(called.get(), 1);
}

#[test]
fn is_without_a_match_continues_with_the_event() {
    let called = Cell::new(false);
    let chain = Event::new(MeEvent::OnClick).is(|_: Me1Event| called.set(true));
    assert!(!called.get());
    match chain {
        EventIsChain::Continue(event) => assert!(event.downcast_ref::<MeEvent>().is_some()),
        EventIsChain::Break => panic!("no test matched"),
    }
}

#[test]
fn a_chain_runs_only_the_first_matching_callback() {
    let first = Cell::new(0);
    let second = Cell::new(0);
    let third = Cell::new(0);
    let chain = Event::new(MeEvent::OnClick)
        .is(|_: ButtonEvent| first.set(first.get() + 1))
        .is(|_: MeEvent| second.set(second.get() + 1))
        .is(|_: MeEvent| third.set(third.get() + 1));
    assert!(matches!(chain, EventIsChain::Break));
    assert_eq!((first.get(), second.get(), third.get()), (0, 1, 0));
}

#[test]
fn a_broken_chain_stays_broken() {
    let called = Cell::new(false);
    let chain = EventIsChain::Break.is(|_: MeEvent| called.set(true));
    assert!(matches!(chain, EventIsChain::Break));
    assert!(!called.get());
}

#[test]
fn node_event_reports_the_node_and_the_event() {
    let event = node_event(42, ButtonEvent::Click);
    match event.downcast::<NamsexEvent>() {
        Ok(NamsexEvent::NodeEvent { node_id, event }) => {
            assert_eq!(node_id, 42);
            assert!(matches!(event.downcast::<ButtonEvent>(), Ok(ButtonEvent::Click)));
        }
        Err(_) => panic!("a node event is a framework event"),
    }
}

#[test]
fn payloads_keep_their_variant() {
    let event = Event::new(ButtonEvent::Click);
    assert!(matches!(event.downcast_ref::<ButtonEvent>(), Some(ButtonEvent::Click)));
    let _ = EventPayload::Me(MeEvent::OnClick);
}
