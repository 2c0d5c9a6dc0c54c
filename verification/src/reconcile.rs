//! Reconciliation: rendering components into a tree against the tree they
//! rendered before, and routing platform events to the component that owns
//! the handler.

use std::collections::VecDeque;

use vstd::prelude::*;

use crate::component::{
    created, ComponentTypeId, ComponentWrapper, InternalComponent, Props, RenderingTree,
};
use crate::button::ButtonEvent;
use crate::component::{ComponentEvent, EventTo};
use crate::event::{Event, EventKind, EventPayload, NamsexEvent};
use crate::ids::is_fresh_id;
use crate::platform_node::PlatformNode;
use crate::tree_node::{lemma_replaced_wf, lemma_target, TreeNode};

verus! {

/// Props equality as the components of kind `kind` define it: both props are
/// of that kind and compare equal (a handler compares by the instance it
/// targets and by the event value it shares).
pub open spec fn props_equal(kind: ComponentTypeId, a: Props, b: Props) -> bool {
    match (a, b) {
        (Props::Me(_), Props::Me(_)) => kind == ComponentTypeId::Me,
        (Props::Me1(x), Props::Me1(y)) => kind == ComponentTypeId::Me1
            && x.on_button_click.instance_id == y.on_button_click.instance_id
            && x.on_button_click.event_ref == y.on_button_click.event_ref && x.value == y.value,
        _ => false,
    }
}

/// Whether a component of kind `kind` rendered with `props` keeps the tree
/// `prev` it rendered before: not when the render is forced, else when `prev`
/// is a component of the same kind with equal props.
pub open spec fn keeps_prev(
    kind: ComponentTypeId,
    props: Props,
    prev: Option<TreeNode>,
    force_render: bool,
) -> bool {
    &&& !force_render
    &&& prev matches Some(TreeNode::Component { component: prev_component, props: prev_props, .. })
    &&& prev_component.internal.kind() == kind
    &&& props_equal(kind, prev_props, props)
}

/// Whether comparing props for a component of kind `kind` against `prev`
/// would need the props equality of the root kind, which defines none: the
/// render is not forced and both the component and the component of `prev`
/// are of the root kind.
pub open spec fn refuses_root_props(kind: ComponentTypeId, prev: Option<TreeNode>, force_render: bool) -> bool {
    &&& !force_render
    &&& kind == ComponentTypeId::MyRoot
    &&& prev matches Some(TreeNode::Component { component: prev_component, .. })
    &&& prev_component.internal.kind() == ComponentTypeId::MyRoot
}

/// The first child subtree of `t`, if it is a component with children.
pub open spec fn first_child(t: TreeNode) -> Option<TreeNode> {
    match t {
        TreeNode::Component { children, .. } => if children@.len() > 0 {
            Some(children@[0])
        } else {
            None
        },
        TreeNode::PlatformNode { .. } => None,
    }
}

/// The first child subtree of `prev`, if any.
pub open spec fn prev_child(prev: Option<TreeNode>) -> Option<TreeNode> {
    match prev {
        Some(t) => first_child(t),
        None => None,
    }
}

/// The platform node of `prev`, if it is a platform node.
pub open spec fn prev_platform_node(prev: Option<TreeNode>) -> Option<PlatformNode> {
    match prev {
        Some(TreeNode::PlatformNode { platform_node, .. }) => Some(platform_node),
        _ => None,
    }
}

/// The element handle of `prev`, if it is a platform node that has one.
pub open spec fn prev_rendered_dom(prev: Option<TreeNode>) -> Option<u64> {
    match prev {
        Some(TreeNode::PlatformNode { rendered_real_dom, .. }) => rendered_real_dom,
        _ => None,
    }
}

/// `result` is the tree that a component in state `internal` renders with
/// `props` against the tree `prev` it rendered before: `prev` itself where
/// it is kept, else the component over the single subtree its render gives.
/// The handlers made on the way take their shared event values from a
/// counter that stands at `next_event_ref` before and at `next_event_ref_after`
/// after.
pub open spec fn reconciled_as(
    result: TreeNode,
    internal: InternalComponent,
    props: Props,
    prev: Option<TreeNode>,
    force_render: bool,
    next_event_ref: int,
    next_event_ref_after: int,
) -> bool
    decreases internal.kind().depth(), 2nat,
{
    if keeps_prev(internal.kind(), props, prev, force_render) {
        prev == Some(result) && next_event_ref_after == next_event_ref
    } else {
        &&& result matches TreeNode::Component { component, props: p, children }
        &&& component.internal == internal
        &&& p == props
        &&& children@.len() == 1
        &&& child_reconciled(
            children@[0],
            component.id,
            internal,
            props,
            prev_child(prev),
            next_event_ref,
            next_event_ref_after,
        )
    }
}

/// `child` is the subtree under the instance `rendering_component_id` of a
/// component in state `internal` rendered with `props`, against the subtree
/// `prev_child` it had before: some render `rt` of the component (see
/// [`from_rendering`]) gives it. Handlers take their shared event values from
/// a counter that stands at `next_event_ref` before and at
/// `next_event_ref_after` after.
pub open spec fn child_reconciled(
    child: TreeNode,
    rendering_component_id: u128,
    internal: InternalComponent,
    props: Props,
    prev_child: Option<TreeNode>,
    next_event_ref: int,
    next_event_ref_after: int,
) -> bool
    decreases internal.kind().depth(), 1nat,
{
    exists|rt: RenderingTree|
        #[trigger] internal.renders(props, rendering_component_id, next_event_ref, rt)
            && from_rendering(child, internal, props, prev_child, next_event_ref, next_event_ref_after, rt)
}

/// `child` is what the render `rt` of a component in state `internal` gives
/// against the subtree `prev_child`: the blueprint of a child component (of a
/// smaller depth), which is created under a fresh instance id and reconciled
/// in turn (keeping `prev_child` where it may), or a platform node, which
/// takes over the node and element handle of a previous platform node.
pub open spec fn from_rendering(
    child: TreeNode,
    internal: InternalComponent,
    props: Props,
    prev_child: Option<TreeNode>,
    next_event_ref: int,
    next_event_ref_after: int,
    rt: RenderingTree,
) -> bool
    decreases internal.kind().depth(), 0nat,
{
    match rt {
        RenderingTree::ComponentBlueprint { component_type_id, props: child_props } => {
            &&& component_type_id.depth() < internal.kind().depth()
            &&& reconciled_as(
                child,
                created(component_type_id),
                child_props,
                prev_child,
                false,
                next_event_ref + internal.handlers_made(),
                next_event_ref_after,
            )
            &&& !keeps_prev(component_type_id, child_props, prev_child, false) ==> is_fresh_id(
                child->component.id,
            )
        },
        RenderingTree::Node(platform_node) => {
            &&& child == (TreeNode::PlatformNode {
                platform_node,
                prev_platform_node: prev_platform_node(prev_child),
                rendered_real_dom: prev_rendered_dom(prev_child),
            })
            &&& next_event_ref_after == next_event_ref + internal.handlers_made()
        },
    }
}

/// Compares two props as the components of kind `kind` define equality.
/// Only the kinds that render as children ([`Me`](crate::Me) and
/// [`Me1`](crate::Me1)) define it.
fn boxed_props_eq(component_type_id: ComponentTypeId, props_a: &Props, props_b: &Props) -> (r: bool)
    requires
        component_type_id != ComponentTypeId::MyRoot,
    ensures
        r == props_equal(component_type_id, *props_a, *props_b),
{
    match component_type_id {
        ComponentTypeId::Me => match (props_a, props_b) {
            (Props::Me(a), Props::Me(b)) => a == b,
            _ => false,
        },
        ComponentTypeId::Me1 => match (props_a, props_b) {
            (Props::Me1(a), Props::Me1(b)) => a == b,
            _ => false,
        },
        ComponentTypeId::MyRoot => vstd::pervasive::unreached(),
    }
}

/// Whether `component` rendered with `props` keeps the tree `prev_tree_node`
/// it rendered before (see [`keeps_prev`]).
fn should_keep_to_prev_tree_node(
    component: &ComponentWrapper,
    props: &Props,
    prev_tree_node: &Option<TreeNode>,
    force_render: bool,
) -> (r: bool)
    requires
        !refuses_root_props(component.internal.kind(), *prev_tree_node, force_render),
    ensures
        r == keeps_prev(component.internal.kind(), *props, *prev_tree_node, force_render),
{
    if force_render {
        return false;
    }
    match prev_tree_node {
        Some(TreeNode::Component { component: prev_component, props: prev_props, .. }) => {
            let component_type_id = component.component_type_id();
            component_type_id == prev_component.component_type_id() && boxed_props_eq(
                component_type_id,
                prev_props,
                props,
            )
        },
        _ => false,
    }
}

/// Takes the first child subtree out of `tree_node`.
fn get_child_tree_node(tree_node: TreeNode) -> (r: Option<TreeNode>)
    ensures
        r == first_child(tree_node),
{
    match tree_node {
        TreeNode::Component { mut children, .. } => {
            children.pop_front()
        },
        TreeNode::PlatformNode { .. } => None,
    }
}

/// Creates a child component of kind `component_type_id` from `props`, under
/// a fresh instance id.
fn create_component(component_type_id: ComponentTypeId, props: &Props) -> (r: ComponentWrapper)
    requires
        component_type_id != ComponentTypeId::MyRoot,
        props.kind() == component_type_id,
    ensures
        r.internal == created(component_type_id),
        is_fresh_id(r.id),
{
    ComponentWrapper::new(InternalComponent::create(props))
}

/// The child subtrees of a well formed tree are well formed.
proof fn lemma_first_child_wf(t: TreeNode)
    requires
        t.wf(),
    ensures
        first_child(t) matches Some(c) ==> c.wf(),
{
    if let TreeNode::Component { children, .. } = t {
        if children@.len() > 0 {
            assert(children@[0].wf());
        }
    }
}

/// Renders `component` with `props` against the tree `prev_tree_node` it
/// rendered before (see [`reconciled_as`]): keeps that tree where
/// [`keeps_prev`] says so, else renders, creates and reconciles the child
/// component of the render or takes its platform node.
fn reconciliation(
    component: ComponentWrapper,
    props: Props,
    prev_tree_node: Option<TreeNode>,
    force_render: bool,
    next_event_ref: &mut u64,
) -> (r: TreeNode)
    requires
        props.kind() == component.internal.kind(),
        !refuses_root_props(component.internal.kind(), prev_tree_node, force_render),
        prev_tree_node matches Some(t) ==> t.wf(),
        *old(next_event_ref) + component.internal.kind().depth() < u64::MAX,
    ensures
        reconciled_as(
            r,
            component.internal,
            props,
            prev_tree_node,
            force_render,
            *old(next_event_ref) as int,
            *final(next_event_ref) as int,
        ),
        !keeps_prev(component.internal.kind(), props, prev_tree_node, force_render)
            ==> r->component.id == component.id,
        r.wf(),
        *old(next_event_ref) <= *final(next_event_ref) <= *old(next_event_ref)
            + component.internal.kind().depth(),
    decreases component.internal.kind().depth(),
{
    if should_keep_to_prev_tree_node(&component, &props, &prev_tree_node, force_render) {
        return prev_tree_node.unwrap();
    }
    let ghost next_before = *next_event_ref;
    let mut component = component;
    let rendering_tree = component.render(&props, next_event_ref);
    let ghost rt = rendering_tree;
    let prev_child_tree_node = match prev_tree_node {
        Some(prev) => {
            proof {
                lemma_first_child_wf(prev);
            }
            get_child_tree_node(prev)
        },
        None => None,
    };
    let child = match rendering_tree {
        RenderingTree::ComponentBlueprint { component_type_id, props } => {
            let child_component = create_component(component_type_id, &props);
            reconciliation(child_component, props, prev_child_tree_node, false, next_event_ref)
        },
        RenderingTree::Node(platform_node) => match prev_child_tree_node {
            Some(
                TreeNode::PlatformNode {
                    platform_node: prev_platform_node,
                    prev_platform_node: _,
                    rendered_real_dom,
                },
            ) => TreeNode::PlatformNode {
                platform_node,
                prev_platform_node: Some(prev_platform_node),
                rendered_real_dom,
            },
            _ => TreeNode::PlatformNode {
                platform_node,
                prev_platform_node: None,
                rendered_real_dom: None,
            },
        },
    };
    assert(component.internal.renders(props, component.id, next_before as int, rt));
    assert(child.wf());
    let mut children = VecDeque::new();
    children.push_back(child);
    assert(children@ =~= seq![child]);
    TreeNode::Component { component, props, children }
}

/// `result` is the component tree `tree` rendered again in place: the same
/// component and props over the single subtree a new render gives against
/// its first child subtree, with the handler counter going from
/// `next_event_ref` to `next_event_ref_after`.
pub open spec fn top_reconciled(
    result: TreeNode,
    tree: TreeNode,
    next_event_ref: int,
    next_event_ref_after: int,
) -> bool {
    &&& tree matches TreeNode::Component { component, props, children }
    &&& result matches TreeNode::Component { component: c, props: p, children: ch }
    &&& c == component
    &&& p == props
    &&& ch@.len() == 1
    &&& child_reconciled(
        ch@[0],
        component.id,
        component.internal,
        props,
        first_child(tree),
        next_event_ref,
        next_event_ref_after,
    )
}

/// Renders the component at the top of `tree_node` again and reconciles the
/// result against its first child subtree.
fn top_reconciliation(tree_node: TreeNode, next_event_ref: &mut u64) -> (r: TreeNode)
    requires
        tree_node is Component,
        tree_node.wf(),
        *old(next_event_ref) + tree_node->component.internal.kind().depth() < u64::MAX,
    ensures
        top_reconciled(r, tree_node, *old(next_event_ref) as int, *final(next_event_ref) as int),
        r.wf(),
        *old(next_event_ref) <= *final(next_event_ref) <= *old(next_event_ref)
            + tree_node->component.internal.kind().depth(),
{
    proof {
        lemma_first_child_wf(tree_node);
    }
    match tree_node {
        TreeNode::Component { mut component, props, mut children } => {
            let ghost next_before = *next_event_ref;
            let rendering_tree = component.render(&props, next_event_ref);
            let ghost rt = rendering_tree;
            let prev_child_tree_node = children.pop_front();
            let child = match rendering_tree {
                RenderingTree::ComponentBlueprint { component_type_id, props } => {
                    let child_component = create_component(component_type_id, &props);
                    reconciliation(child_component, props, prev_child_tree_node, false, next_event_ref)
                },
                RenderingTree::Node(platform_node) => match prev_child_tree_node {
                    Some(
                        TreeNode::PlatformNode {
                            platform_node: prev_platform_node,
                            prev_platform_node: _,
                            rendered_real_dom,
                        },
                    ) => TreeNode::PlatformNode {
                        platform_node,
                        prev_platform_node: Some(prev_platform_node),
                        rendered_real_dom,
                    },
                    _ => TreeNode::PlatformNode {
                        platform_node,
                        prev_platform_node: None,
                        rendered_real_dom: None,
                    },
                },
            };
            assert(component.internal.renders(props, component.id, next_before as int, rt));
            assert(child.wf());
            let mut new_children = VecDeque::new();
            new_children.push_back(child);
            assert(new_children@ =~= seq![child]);
            TreeNode::Component { component, props, children: new_children }
        },
        TreeNode::PlatformNode { .. } => vstd::pervasive::unreached(),
    }
}

/// `result` is `owner`, a component subtree, after its component took
/// `event` and was rendered again in place, with the handler counter going
/// from `next_event_ref` to `next_event_ref_after`.
pub open spec fn updated_and_rerendered(
    owner: TreeNode,
    event: ComponentEvent,
    result: TreeNode,
    next_event_ref: int,
    next_event_ref_after: int,
) -> bool {
    &&& owner matches TreeNode::Component { component, props, children }
    &&& top_reconciled(
        result,
        TreeNode::Component {
            component: ComponentWrapper { id: component.id, internal: component.internal.updated(event) },
            props,
            children,
        },
        next_event_ref,
        next_event_ref_after,
    )
}

/// The handler that `event` triggers in `tree`: the click handler of the
/// button it was raised on, if that button is in the tree.
pub open spec fn triggered_handler(tree: TreeNode, event: Event) -> Option<EventTo> {
    match event@ {
        EventPayload::Namsex(b) => match tree.find_pn(b.node_id()) {
            Some(PlatformNode::Button(button)) => Some(button.on_click),
            _ => None,
        },
        _ => None,
    }
}

/// `result` is `tree` after `event`: where the event triggers a handler, the
/// subtree of the handler's component is replaced by that component updated
/// with the handler's event and rendered again in place; else the tree stays
/// as it is. The handler counter goes from `next_event_ref` to
/// `next_event_ref_after`.
pub open spec fn handled(
    result: TreeNode,
    tree: TreeNode,
    event: Event,
    next_event_ref: int,
    next_event_ref_after: int,
) -> bool {
    match triggered_handler(tree, event) {
        None => result == tree && next_event_ref_after == next_event_ref,
        Some(handler) => exists|n: TreeNode|
            updated_and_rerendered(
                tree.target(handler.instance_id),
                handler.event,
                n,
                next_event_ref,
                next_event_ref_after,
            ) && tree.is_replaced(result, handler.instance_id, n),
    }
}

/// Whether [`handle_event`] can take `event` on `tree`: it reports an event
/// raised on a platform node; where that node is in the tree, it is a button,
/// the event is a button event, and the component that the button's handler
/// targets is in the tree and can take the handler's event.
pub open spec fn can_handle_event(tree: TreeNode, event: Event) -> bool {
    &&& event@ matches EventPayload::Namsex(b)
    &&& match tree.find_pn(b.node_id()) {
        None => true,
        Some(PlatformNode::Text(_)) => false,
        Some(PlatformNode::Button(button)) => {
            &&& ButtonEvent::holds(b.inner_event()@)
            &&& tree.has_component(button.on_click.instance_id)
            &&& tree.target(button.on_click.instance_id)->component.internal.accepts(
                button.on_click.event,
            )
        },
    }
}

/// Whether [`handle_event`] can take `event` on `tree_node` (see
/// [`can_handle_event`]).
pub fn can_handle(event: &Event, tree_node: &TreeNode) -> (r: bool)
    ensures
        r == can_handle_event(*tree_node, *event),
{
    match event.downcast_ref::<NamsexEvent>() {
        Some(NamsexEvent::NodeEvent { node_id, event: inner }) => {
            match tree_node.find_platform_node(*node_id) {
                None => true,
                Some(PlatformNode::Text(_)) => false,
                Some(PlatformNode::Button(button)) => {
                    let handler = button.on_click;
                    inner.downcast_ref::<ButtonEvent>().is_some()
                        && tree_node.has_owner_of_component_node_recursively(handler.instance_id)
                        && tree_node.target_component(handler.instance_id).internal.can_take(
                        &handler.event,
                    )
                },
            }
        },
        None => false,
    }
}

/// Routes `event`, raised on a platform node, through the tree: the handler
/// that the node answers is delivered to its component, which is updated and
/// rendered again in place. An event on a node that is not in the tree leaves
/// the tree as it is. New handlers take their shared event values from
/// `next_event_ref`, which only grows.
pub fn handle_event(event: Event, tree_node: TreeNode, next_event_ref: &mut u64) -> (r: TreeNode)
    requires
        tree_node.wf(),
        can_handle_event(tree_node, event),
        *old(next_event_ref) < u64::MAX - 2,
    ensures
        r.wf(),
        handled(r, tree_node, event, *old(next_event_ref) as int, *final(next_event_ref) as int),
        *old(next_event_ref) <= *final(next_event_ref),
{
    let ghost old_tree = tree_node;
    let namsex_event = event.downcast::<NamsexEvent>().unwrap();
    match namsex_event {
        NamsexEvent::NodeEvent { node_id, event } => {
            let event_to = match tree_node.find_platform_node(node_id) {
                Some(platform_node) => platform_node.on_event(event),
                None => {
                    return tree_node;
                },
            };
            let event_to = match event_to {
                Some(event_to) => event_to,
                None => {
                    return tree_node;
                },
            };
            let instance_id = event_to.instance_id;
            let component_event = event_to.event;
            proof {
                lemma_target(old_tree, instance_id);
            }
            let rerender = move |owner: TreeNode, next: u64| -> (r: (TreeNode, u64))
                requires
                    owner is Component,
                    owner.wf(),
                    owner->component.internal.accepts(component_event),
                    next < u64::MAX - 2,
                ensures
                    updated_and_rerendered(owner, component_event, r.0, next as int, r.1 as int),
                    r.0.wf(),
                    next <= r.1,
                {
                    let mut next = next;
                    match owner {
                        TreeNode::Component { mut component, props, children } => {
                            component.internal.update(&component_event);
                            let rerendered = top_reconciliation(
                                TreeNode::Component { component, props, children },
                                &mut next,
                            );
                            (rerendered, next)
                        },
                        TreeNode::PlatformNode { .. } => vstd::pervasive::unreached(),
                    }
                };
            let ghost rerender_g = rerender;
            let ghost next_before = *next_event_ref;
            let edited = tree_node.edit_component_node(instance_id, *next_event_ref, rerender);
            let (r, next_after) = edited.unwrap();
            *next_event_ref = next_after;
            proof {
                let n = choose|n: TreeNode|
                    call_ensures(rerender_g, (old_tree.target(instance_id), next_before), (n, next_after))
                        && old_tree.is_replaced(r, instance_id, n);
                assert(updated_and_rerendered(
                    old_tree.target(instance_id),
                    component_event,
                    n,
                    next_before as int,
                    next_after as int,
                ));
                lemma_replaced_wf(old_tree, r, instance_id, n);
            }
            r
        },
    }
}

/// Mounts a root component of the kind of `props`: creates it under a fresh
/// instance id and renders the whole tree below it. New handlers take their
/// shared event values from `next_event_ref`.
pub fn mount(props: Props, next_event_ref: &mut u64) -> (r: TreeNode)
    requires
        *old(next_event_ref) + props.kind().depth() < u64::MAX,
    ensures
        reconciled_as(
            r,
            created(props.kind()),
            props,
            None,
            true,
            *old(next_event_ref) as int,
            *final(next_event_ref) as int,
        ),
        is_fresh_id(r->component.id),
        r.wf(),
        *old(next_event_ref) <= *final(next_event_ref),
{
    let root_component = ComponentWrapper::new(InternalComponent::create(&props));
    reconciliation(root_component, props, None, true, next_event_ref)
}

} // verus!
