use std::collections::VecDeque;

use namsex_core::event::{node_event, Event};
use namsex_core::{
    can_handle, handle_event, mount, ButtonEvent, ComponentEvent, ComponentTypeId,
    ComponentWrapper, EventTo, InternalComponent, Me, MeEvent, MeProps, Me1, MyRoot,
    MyRootEvent, MyRootProps, PlatformNode, Props, RenderingTree, Text, TreeNode, Component,
};

fn component(tree: &TreeNode) -> &ComponentWrapper {
    match tree {
        TreeNode::Component { component, .. } => component,
        TreeNode::PlatformNode { .. } => panic!("not a component"),
    }
}

fn only_child(tree: &TreeNode) -> &TreeNode {
    match tree {
        TreeNode::Component { children, .. } => {
            assert_eq!(children.len(), 1);
            &children[0]
        }
        TreeNode::PlatformNode { .. } => panic!("not a component"),
    }
}

fn button_of(tree: &TreeNode) -> &namsex_core::Button {
    match tree {
        TreeNode::PlatformNode { platform_node: PlatformNode::Button(button), .. } => button,
        _ => panic!("not a button node"),
    }
}

fn x_of(component: &ComponentWrapper) -> i32 {
    match &component.internal {
        InternalComponent::MyRoot(r) => r.x,
        InternalComponent::Me(me) => me.x,
        InternalComponent::Me1(me1) => me1.x,
    }
}

fn click(tree: TreeNode, next: &mut u64) -> TreeNode {
    let button_id = button_of(only_child(only_child(only_child(&tree)))).id;
    let event = node_event(button_id, ButtonEvent::Click);
    assert!(can_handle(&event, &tree));
    handle_event(event, tree, next)
}

#[test]
fn mount_renders_the_demo_tree() {
    let mut next: u64 = 0;
    let tree = mount(Props::MyRoot(MyRootProps {}), &mut next);
    let root = component(&tree);
    assert_eq!(root.component_type_id(), ComponentTypeId::MyRoot);
    let me = only_child(&tree);
    assert_eq!(component(me).component_type_id(), ComponentTypeId::Me);
    assert_eq!(x_of(component(me)), 0);
    let me1 = only_child(me);
    assert_eq!(component(me1).component_type_id(), ComponentTypeId::Me1);
    let button_node = only_child(me1);
    let button = button_of(button_node);
    assert_eq!(button.text, "I am button! self.x: 0, props.value: 0");
    assert_eq!(button.on_click.instance_id, component(me).id);
    assert_eq!(button.on_click.event, ComponentEvent::Me(MeEvent::OnClick));
    match button_node {
        TreeNode::PlatformNode { prev_platform_node, rendered_real_dom, .. } => {
            assert!(prev_platform_node.is_none());
            assert!(rendered_real_dom.is_none());
        }
        _ => unreachable!(),
    }
}

#[test]
fn a_click_counts_in_the_owner_and_renders_it_again() {
    let mut next: u64 = 0;
    let tree = mount(Props::MyRoot(MyRootProps {}), &mut next);
    let root_id = component(&tree).id;
    let me_id = component(only_child(&tree)).id;
    let me1_id = component(only_child(only_child(&tree))).id;
    let old_button_id = button_of(only_child(only_child(only_child(&tree)))).id;

    assert_eq!(next, 1);
    let tree = click(tree, &mut next);
    assert_eq!(next, 2);
    assert_eq!(component(&tree).id, root_id);
    let me = only_child(&tree);
    assert_eq!(component(me).id, me_id);
    assert_eq!(x_of(component(me)), 1);
    let me1 = only_child(me);
    assert_ne!(component(me1).id, me1_id);
    assert_eq!(x_of(component(me1)), 0);
    let button_node = only_child(me1);
    let button = button_of(button_node);
    assert_eq!(button.text, "I am button! self.x: 0, props.value: 1");
    assert_eq!(button.on_click.instance_id, me_id);
    assert_eq!(button.on_click.event_ref, 1);
    match button_node {
        TreeNode::PlatformNode { prev_platform_node: Some(PlatformNode::Button(prev)), .. } => {
            assert_eq!(prev.id, old_button_id);
        }
        _ => panic!("the new button remembers the old one"),
    }

    let tree = click(tree, &mut next);
    let tree = click(tree, &mut next);
    assert_eq!(next, 4);
    let me = only_child(&tree);
    assert_eq!(x_of(component(me)), 3);
    assert_eq!(
        button_of(only_child(only_child(me))).text,
        "I am button! self.x: 0, props.value: 3"
    );
}

#[test]
fn an_element_handle_carries_over_to_the_new_button() {
    let mut next: u64 = 0;
    let mut tree = mount(Props::MyRoot(MyRootProps {}), &mut next);
    if let TreeNode::Component { children, .. } = &mut tree {
        if let TreeNode::Component { children, .. } = &mut children[0] {
            if let TreeNode::Component { children, .. } = &mut children[0] {
                if let TreeNode::PlatformNode { rendered_real_dom, .. } = &mut children[0] {
                    *rendered_real_dom = Some(7);
                }
            }
        }
    }
    let tree = click(tree, &mut next);
    match only_child(only_child(only_child(&tree))) {
        TreeNode::PlatformNode { rendered_real_dom, .. } => assert_eq!(*rendered_real_dom, Some(7)),
        _ => panic!("a button node"),
    }
}

#[test]
fn an_event_on_an_absent_node_changes_nothing() {
    let mut next: u64 = 0;
    let tree = mount(Props::MyRoot(MyRootProps {}), &mut next);
    let before = format!("{:?}", tree);
    let button_id = button_of(only_child(only_child(only_child(&tree)))).id;
    let event = node_event(button_id.wrapping_add(1), ButtonEvent::Click);
    assert!(can_handle(&event, &tree));
    let tree = handle_event(event, tree, &mut next);
    assert_eq!(next, 1);
    assert_eq!(format!("{:?}", tree), before);
}

#[test]
fn only_framework_events_can_be_handled() {
    let mut next: u64 = 0;
    let tree = mount(Props::MyRoot(MyRootProps {}), &mut next);
    assert!(!can_handle(&Event::new(ButtonEvent::Click), &tree));
    let button_id = button_of(only_child(only_child(only_child(&tree)))).id;
    assert!(!can_handle(&node_event(button_id, MeEvent::OnClick), &tree));
}

#[test]
fn events_on_text_nodes_cannot_be_handled() {
    let text = match Text::render("hello") {
        RenderingTree::Node(node) => node,
        RenderingTree::ComponentBlueprint { .. } => panic!("a text renders a node"),
    };
    let text_id = text.id();
    let tree = TreeNode::Component {
        component: ComponentWrapper::new(InternalComponent::MyRoot(MyRoot::create(&MyRootProps {}))),
        props: Props::MyRoot(MyRootProps {}),
        children: VecDeque::from(vec![TreeNode::PlatformNode {
            platform_node: text,
            prev_platform_node: None,
            rendered_real_dom: None,
        }]),
    };
    assert!(!can_handle(&node_event(text_id, ButtonEvent::Click), &tree));
}

#[test]
fn a_full_counter_cannot_take_a_click() {
    let mut next: u64 = 0;
    let mut tree = mount(Props::MyRoot(MyRootProps {}), &mut next);
    if let TreeNode::Component { children, .. } = &mut tree {
        if let TreeNode::Component { component, .. } = &mut children[0] {
            component.internal = InternalComponent::Me(Me { x: i32::MAX });
        }
    }
    let button_id = button_of(only_child(only_child(only_child(&tree)))).id;
    assert!(!can_handle(&node_event(button_id, ButtonEvent::Click), &tree));
}

#[test]
fn unchanged_props_keep_the_subtree() {
    // A root whose first child is a mounted `Me` subtree and whose second is
    // a button whose clicks go to the root itself.
    let mut next: u64 = 0;
    let mounted = mount(Props::MyRoot(MyRootProps {}), &mut next);
    let (root, me_subtree) = match mounted {
        TreeNode::Component { component, mut children, .. } => (component, children.pop_front().unwrap()),
        _ => unreachable!(),
    };
    let me_before = format!("{:?}", me_subtree);
    let handler = EventTo { instance_id: root.id, event: ComponentEvent::MyRoot(MyRootEvent::OnClick), event_ref: 9 };
    let button = match namsex_core::Button::render("root", &handler) {
        RenderingTree::Node(node) => node,
        _ => unreachable!(),
    };
    let button_id = button.id();
    let tree = TreeNode::Component {
        component: root,
        props: Props::MyRoot(MyRootProps {}),
        children: VecDeque::from(vec![
            me_subtree,
            TreeNode::PlatformNode { platform_node: button, prev_platform_node: None, rendered_real_dom: None },
        ]),
    };
    let event = node_event(button_id, ButtonEvent::Click);
    assert!(can_handle(&event, &tree));
    let tree = handle_event(event, tree, &mut next);
    // The root renders a `Me` with the same props: the old subtree stays as it was.
    assert_eq!(format!("{:?}", only_child(&tree)), me_before);
}

#[test]
fn edit_without_the_instance_gives_the_tree_back() {
    let mut next: u64 = 0;
    let tree = mount(Props::MyRoot(MyRootProps {}), &mut next);
    let before = format!("{:?}", tree);
    let missing = component(&tree).id.wrapping_add(1);
    assert!(!tree.has_owner_of_component_node_recursively(missing));
    match tree.edit_component_node(missing, (), |t, s| (t, s)) {
        Err((back, ())) => assert_eq!(format!("{:?}", back), before),
        Ok(_) => panic!("the instance is not in the tree"),
    }
}

#[test]
fn edit_replaces_the_subtree_of_the_instance() {
    let mut next: u64 = 0;
    let tree = mount(Props::MyRoot(MyRootProps {}), &mut next);
    let me_id = component(only_child(&tree)).id;
    assert!(tree.has_owner_of_component_node_recursively(me_id));
    let edited = tree
        .edit_component_node(me_id, 6u32, |_, s| {
            (
                TreeNode::Component {
                    component: ComponentWrapper::new(InternalComponent::Me1(Me1 { x: 5 })),
                    props: Props::Me(MeProps {}),
                    children: VecDeque::new(),
                },
                s + 1,
            )
        })
        .ok()
        .unwrap();
    assert_eq!(edited.1, 7);
    let edited = edited.0;
    let replaced = only_child(&edited);
    assert_eq!(x_of(component(replaced)), 5);
    assert_eq!(component(replaced).component_type_id(), ComponentTypeId::Me1);
}

#[test]
fn find_platform_node_finds_by_node_id() {
    let mut next: u64 = 0;
    let tree = mount(Props::MyRoot(MyRootProps {}), &mut next);
    let button_id = button_of(only_child(only_child(only_child(&tree)))).id;
    let found = tree.find_platform_node(button_id).unwrap();
    assert_eq!(found.id(), button_id);
    assert!(tree.find_platform_node(button_id.wrapping_add(1)).is_none());
}

#[test]
fn target_component_finds_the_instance() {
    let mut next: u64 = 0;
    let tree = mount(Props::MyRoot(MyRootProps {}), &mut next);
    let me_id = component(only_child(&tree)).id;
    assert_eq!(tree.target_component(me_id).id, me_id);
    assert_eq!(tree.target_component(me_id).component_type_id(), ComponentTypeId::Me);
}

#[test]
fn owners_record_the_component_that_rendered_each_button() {
    let mut next: u64 = 0;
    let tree = mount(Props::MyRoot(MyRootProps {}), &mut next);
    let mut owners = std::collections::HashMap::new();
    tree.record_platform_node_owners(&mut owners);
    let me1_id = component(only_child(only_child(&tree))).id;
    let button_id = button_of(only_child(only_child(only_child(&tree)))).id;
    assert_eq!(owners.len(), 1);
    assert_eq!(owners[&button_id], me1_id);

    let tree = click(tree, &mut next);
    tree.record_platform_node_owners(&mut owners);
    let new_me1_id = component(only_child(only_child(&tree))).id;
    let new_button_id = button_of(only_child(only_child(only_child(&tree)))).id;
    assert_eq!(owners.len(), 2);
    assert_eq!(owners[&new_button_id], new_me1_id);
    assert_eq!(owners[&button_id], me1_id);
}

#[test]
fn new_components_and_nodes_carry_fresh_ids() {
    let mut next: u64 = 0;
    let tree = mount(Props::MyRoot(MyRootProps {}), &mut next);
    let fresh = |id: u128| (id >> 76) & 0xf == 4 && (id >> 62) & 0x3 == 2;
    assert!(fresh(component(&tree).id));
    assert!(fresh(component(only_child(&tree)).id));
    assert!(fresh(component(only_child(only_child(&tree))).id));
    let button = button_of(only_child(only_child(only_child(&tree))));
    assert!(fresh(button.id));
    assert_eq!(button.on_click.event_ref, 0);
}
