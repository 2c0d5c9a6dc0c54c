use namsex_core::{
    sync_action, update_button, Button, ButtonEvent, ButtonUpdate, Component, ComponentEvent,
    ComponentTypeId, ComponentWrapper, EventTo, InternalComponent, Me, Me1, Me1Event, Me1Props,
    MeEvent, MeProps, MyRoot, MyRootEvent, MyRootProps, PlatformNode, Props, RenderingTree,
    SyncAction, Text,
};

fn handler(instance_id: u128, event_ref: u64) -> EventTo {
    EventTo { instance_id, event: ComponentEvent::Me(MeEvent::OnClick), event_ref }
}

fn button(text: &str, on_click: &EventTo) -> Button {
    match Button::render(text, on_click) {
        RenderingTree::Node(PlatformNode::Button(b)) => b,
        _ => panic!("a button renders a button node"),
    }
}

#[test]
fn my_root_renders_a_me() {
    let mut root = MyRoot::create(&MyRootProps {});
    assert_eq!(root.x, 0);
    let mut next: u64 = 5;
    match Component::render(&mut root, &MyRootProps {}, 1, &mut next) {
        RenderingTree::ComponentBlueprint { component_type_id, props } => {
            assert_eq!(component_type_id, ComponentTypeId::Me);
            assert!(matches!(props, Props::Me(MeProps {})));
        }
        RenderingTree::Node(_) => panic!("the root renders a component"),
    }
    assert_eq!(next, 5);
    Component::update(&mut root, &MyRootEvent::OnClick);
    assert_eq!(root.x, 0);
}

#[test]
fn me_renders_a_me1_with_a_handler_for_itself() {
    let mut me = Me::create(&MeProps {});
    me.x = 4;
    let mut next: u64 = 40;
    match Component::render(&mut me, &MeProps {}, 77, &mut next) {
        RenderingTree::ComponentBlueprint { component_type_id, props: Props::Me1(p) } => {
            assert_eq!(component_type_id, ComponentTypeId::Me1);
            assert_eq!(p.value, 4);
            assert_eq!(p.on_button_click.instance_id, 77);
            assert_eq!(p.on_button_click.event, ComponentEvent::Me(MeEvent::OnClick));
            assert_eq!(p.on_button_click.event_ref, 40);
        }
        _ => panic!("a Me renders a Me1"),
    }
    assert_eq!(next, 41);
    Component::update(&mut me, &MeEvent::OnClick);
    assert_eq!(me.x, 5);
}

#[test]
fn me1_renders_a_labelled_button() {
    let mut me1 = Me1::create(&Me1Props { on_button_click: handler(3, 4), value: -12 });
    me1.x = 305;
    let props = Me1Props { on_button_click: handler(3, 4), value: -12 };
    let mut next: u64 = 9;
    match Component::render(&mut me1, &props, 8, &mut next) {
        RenderingTree::Node(PlatformNode::Button(b)) => {
            assert_eq!(b.text, "I am button! self.x: 305, props.value: -12");
            assert!(b.on_click == handler(3, 4));
        }
        _ => panic!("a Me1 renders a button"),
    }
    assert_eq!(next, 9);
    Component::update(&mut me1, &Me1Event::OnClick);
    assert_eq!(me1.x, 306);
}

#[test]
fn me1_label_of_extreme_values() {
    let mut me1 = Me1 { x: i32::MIN };
    let props = Me1Props { on_button_click: handler(1, 1), value: i32::MAX };
    let mut next: u64 = 0;
    match Component::render(&mut me1, &props, 8, &mut next) {
        RenderingTree::Node(PlatformNode::Button(b)) => assert_eq!(
            b.text,
            "I am button! self.x: -2147483648, props.value: 2147483647"
        ),
        _ => panic!("a Me1 renders a button"),
    }
}

#[test]
fn blueprints_carry_kind_and_props() {
    assert!(matches!(
        Me::render(MeProps {}),
        RenderingTree::ComponentBlueprint { component_type_id: ComponentTypeId::Me, props: Props::Me(_) }
    ));
    match Me1::render(Me1Props { on_button_click: handler(2, 3), value: 9 }) {
        RenderingTree::ComponentBlueprint { component_type_id, props: Props::Me1(p) } => {
            assert_eq!(component_type_id, ComponentTypeId::Me1);
            assert_eq!(p.value, 9);
        }
        _ => panic!("a blueprint"),
    }
}

#[test]
fn handlers_compare_by_instance_and_shared_event() {
    assert!(handler(1, 2) == handler(1, 2));
    assert!(handler(1, 2) != handler(1, 3));
    assert!(handler(1, 2) != handler(4, 2));
    let other_event = EventTo { instance_id: 1, event: ComponentEvent::Me1(Me1Event::OnClick), event_ref: 2 };
    assert!(handler(1, 2) == other_event);
    let copy = handler(5, 6);
    assert!(copy.clone() == copy);
}

#[test]
fn me1_props_compare_handler_and_value() {
    let a = Me1Props { on_button_click: handler(1, 2), value: 3 };
    assert!(a == Me1Props { on_button_click: handler(1, 2), value: 3 });
    assert!(a != Me1Props { on_button_click: handler(1, 2), value: 4 });
    assert!(a != Me1Props { on_button_click: handler(1, 5), value: 3 });
}

#[test]
fn event_handler_targets_the_rendering_instance() {
    let me = Me { x: 0 };
    let mut next: u64 = 20;
    let h = me.event_handler(11, ComponentEvent::Me(MeEvent::OnClick), &mut next);
    assert_eq!(h.instance_id, 11);
    assert_eq!(h.event, ComponentEvent::Me(MeEvent::OnClick));
    assert_eq!(h.event_ref, 20);
    assert_eq!(next, 21);
    let h2 = me.event_handler(11, ComponentEvent::Me(MeEvent::OnClick), &mut next);
    assert_eq!(h2.event_ref, 21);
    assert_eq!(next, 22);
    assert!(h != h2);
    assert!(h == h.clone());
}

#[test]
fn button_click_answers_its_handler() {
    let b = button("go", &handler(7, 8));
    assert_eq!(b.text, "go");
    assert!(b.on_event(ButtonEvent::Click) == Some(handler(7, 8)));
    let node = PlatformNode::Button(b);
    let id = node.id();
    let answered = node.on_event(namsex_core::event::Event::new(ButtonEvent::Click));
    assert!(answered == Some(handler(7, 8)));
    assert_eq!(node.id(), id);
}

#[test]
fn fresh_ids_are_version_four_uuids() {
    let a = button("a", &handler(1, 1)).id;
    let b = button("b", &handler(1, 1)).id;
    assert_ne!(a, b);
    assert_eq!((a >> 76) & 0xf, 4);
    assert_eq!((a >> 62) & 0x3, 2);
}

#[test]
fn text_render_keeps_the_text() {
    match Text::render("hello") {
        RenderingTree::Node(PlatformNode::Text(t)) => assert_eq!(t.text, "hello"),
        _ => panic!("a text node"),
    }
}

#[test]
fn internal_components_dispatch_by_kind() {
    let created = InternalComponent::create(&Props::Me(MeProps {}));
    assert_eq!(created.component_type_id(), ComponentTypeId::Me);
    let mut wrapper = ComponentWrapper::new(created);
    assert!(wrapper.internal.can_take(&ComponentEvent::Me(MeEvent::OnClick)));
    assert!(!wrapper.internal.can_take(&ComponentEvent::Me1(Me1Event::OnClick)));
    wrapper.internal.update(&ComponentEvent::Me(MeEvent::OnClick));
    assert!(matches!(wrapper.internal, InternalComponent::Me(Me { x: 1 })));
    let id = wrapper.id;
    let mut next: u64 = 3;
    match wrapper.render(&Props::Me(MeProps {}), &mut next) {
        RenderingTree::ComponentBlueprint { props: Props::Me1(p), .. } => {
            assert_eq!(p.on_button_click.instance_id, id);
            assert_eq!(p.on_button_click.event_ref, 3);
            assert_eq!(p.value, 1);
        }
        _ => panic!("a Me renders a Me1"),
    }
    assert_eq!(next, 4);
    let full = InternalComponent::Me1(Me1 { x: i32::MAX });
    assert!(!full.can_take(&ComponentEvent::Me1(Me1Event::OnClick)));
    let root = InternalComponent::create(&Props::MyRoot(MyRootProps {}));
    assert!(root.can_take(&ComponentEvent::MyRoot(MyRootEvent::OnClick)));
}

#[test]
fn button_updates_follow_what_changed() {
    let a = button("a", &handler(1, 1));
    let b = button("b", &handler(1, 1));
    assert_eq!(update_button(&a, &a), ButtonUpdate { set_text_content: false, set_onclick: false });
    assert_eq!(update_button(&b, &a), ButtonUpdate { set_text_content: true, set_onclick: true });
    let same_text = Button { id: a.id.wrapping_add(1), text: "a".to_string(), on_click: handler(1, 1) };
    assert_eq!(update_button(&same_text, &a), ButtonUpdate { set_text_content: false, set_onclick: true });
    let same_id = Button { id: a.id, text: "z".to_string(), on_click: handler(1, 1) };
    assert_eq!(update_button(&same_id, &a), ButtonUpdate { set_text_content: true, set_onclick: false });
}

#[test]
fn sync_actions_follow_the_node_state() {
    let node = PlatformNode::Button(button("a", &handler(1, 1)));
    assert_eq!(sync_action(&node, &None, &None), SyncAction::Create);
    assert_eq!(sync_action(&node, &None, &Some(3)), SyncAction::Keep);
    let prev = PlatformNode::Button(button("b", &handler(1, 1)));
    assert_eq!(
        sync_action(&node, &Some(prev), &Some(3)),
        SyncAction::UpdateButton(ButtonUpdate { set_text_content: true, set_onclick: true })
    );
    let text = match Text::render("t") {
        RenderingTree::Node(n) => n,
        _ => unreachable!(),
    };
    assert_eq!(sync_action(&node, &Some(text), &Some(3)), SyncAction::Replace);
    let text_a = match Text::render("t") {
        RenderingTree::Node(n) => n,
        _ => unreachable!(),
    };
    let text_b = match Text::render("u") {
        RenderingTree::Node(n) => n,
        _ => unreachable!(),
    };
    assert_eq!(sync_action(&text_a, &Some(text_b), &Some(3)), SyncAction::UpdateText);
    let text_c = match Text::render("v") {
        RenderingTree::Node(n) => n,
        _ => unreachable!(),
    };
    assert_eq!(sync_action(&text_c, &None, &None), SyncAction::Create);
}
