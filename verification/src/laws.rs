//! Properties of the framework as a whole: what reconciliation keeps, what
//! an event changes, and that every handler a shown button holds is
//! delivered to a component above the button.

use vstd::prelude::*;
use vstd::std_specs::cmp::PartialEqSpec;

use crate::button::{Button, ButtonClickEvent, ButtonEvent};
use crate::component::{created, ComponentEvent, EventTo, InternalComponent, Props, RenderingTree};
use crate::me::{Me, MeEvent};
use crate::me1::{Me1, Me1Event, Me1Props};
use crate::my_root::MyRootEvent;
use crate::sync::{button_update_spec, sync_action_spec, SyncAction};
use crate::event::{EventKind, NamsexEvent};
use crate::event::{Event, EventPayload};
use crate::ids::is_fresh_id;
use crate::platform_node::PlatformNode;
use crate::reconcile::{
    child_reconciled, first_child, from_rendering, handled, keeps_prev, prev_child, props_equal,
    reconciled_as, top_reconciled, triggered_handler, updated_and_rerendered,
};
use crate::tree_node::TreeNode;

verus! {

broadcast use crate::tree_node::lemma_child_decreases;

/// A component rendered again with the kind and props it had keeps the
/// subtree it rendered before, as it was: nothing below it is rendered again.
pub proof fn law_unchanged_props_keep_subtree(
    result: TreeNode,
    internal: InternalComponent,
    props: Props,
    prev: TreeNode,
    next_event_ref: int,
    next_event_ref_after: int,
)
    requires
        reconciled_as(result, internal, props, Some(prev), false, next_event_ref, next_event_ref_after),
        prev is Component,
        prev->component.internal.kind() == internal.kind(),
        props_equal(internal.kind(), prev->props, props),
    ensures
        result == prev,
        next_event_ref_after == next_event_ref,
{
}

/// An event raised on a node that is not in the tree leaves the tree as it
/// is.
pub proof fn law_event_on_absent_node_changes_nothing(
    tree: TreeNode,
    event: Event,
    r: TreeNode,
    next_event_ref: int,
    next_event_ref_after: int,
)
    requires
        handled(r, tree, event, next_event_ref, next_event_ref_after),
        event@ matches EventPayload::Namsex(b) && tree.find_pn(b.node_id()) is None,
    ensures
        r == tree,
        next_event_ref_after == next_event_ref,
{
}

/// A component that takes an event keeps its instance id and props, takes
/// the updated state, and renders a single subtree again.
pub proof fn law_rerender_keeps_instance(
    owner: TreeNode,
    event: ComponentEvent,
    n: TreeNode,
    next_event_ref: int,
    next_event_ref_after: int,
)
    requires
        updated_and_rerendered(owner, event, n, next_event_ref, next_event_ref_after),
    ensures
        n is Component,
        n->component.id == owner->component.id,
        n->component.internal == owner->component.internal.updated(event),
        n->props == owner->props,
        n->children@.len() == 1,
{
}

/// Handling an event whose handler goes below the root leaves the root
/// component and its props as they were.
pub proof fn law_event_keeps_root(
    tree: TreeNode,
    event: Event,
    r: TreeNode,
    next_event_ref: int,
    next_event_ref_after: int,
)
    requires
        handled(r, tree, event, next_event_ref, next_event_ref_after),
        tree is Component,
        triggered_handler(tree, event) matches Some(h) && h.instance_id != tree->component.id,
    ensures
        r is Component,
        r->component == tree->component,
        r->props == tree->props,
{
}

/// Where a render gives a platform node in the place of a platform node, the
/// new node keeps the element the platform made for the old one and
/// remembers the old node, so the platform can change the element in place.
pub proof fn law_platform_node_keeps_element(
    child: TreeNode,
    rendering_component_id: u128,
    internal: InternalComponent,
    props: Props,
    prev: TreeNode,
    next_event_ref: int,
    next_event_ref_after: int,
)
    requires
        child_reconciled(
            child,
            rendering_component_id,
            internal,
            props,
            Some(prev),
            next_event_ref,
            next_event_ref_after,
        ),
        internal is Me1,
        prev is PlatformNode,
    ensures
        child is PlatformNode,
        child->rendered_real_dom == prev->rendered_real_dom,
        child->prev_platform_node == Some(prev->platform_node),
{
    let rt = choose|rt: RenderingTree|
        #[trigger] internal.renders(props, rendering_component_id, next_event_ref, rt)
            && from_rendering(
            child,
            internal,
            props,
            Some(prev),
            next_event_ref,
            next_event_ref_after,
            rt,
        );
}

/// The platform node found for an id carries that id.
pub proof fn law_found_node_has_id(t: TreeNode, id: u128)
    ensures
        t.find_pn(id) matches Some(p) ==> p.node_id() == id,
    decreases t, t.num_children() + 1,
{
    if t is Component {
        lemma_found_from_has_id(t, id, 0);
    }
}

proof fn lemma_found_from_has_id(t: TreeNode, id: u128, i: int)
    requires
        t is Component,
    ensures
        t.find_pn_from(id, i) matches Some(p) ==> p.node_id() == id,
    decreases t, t.num_children() - i,
{
    if 0 <= i < t.num_children() {
        law_found_node_has_id(t.child(i), id);
        lemma_found_from_has_id(t, id, i + 1);
    }
}

/// A platform node in a rendered tree stands directly below the component
/// whose render made it: the owner that
/// [`TreeNode::record_platform_node_owners`] records for a button is the
/// component that rendered the button.
pub proof fn law_platform_node_owner_is_renderer(
    child: TreeNode,
    rendering_component_id: u128,
    internal: InternalComponent,
    props: Props,
    prev: Option<TreeNode>,
    next_event_ref: int,
    next_event_ref_after: int,
)
    requires
        child_reconciled(
            child,
            rendering_component_id,
            internal,
            props,
            prev,
            next_event_ref,
            next_event_ref_after,
        ),
        child is PlatformNode,
    ensures
        internal.renders(
            props,
            rendering_component_id,
            next_event_ref,
            RenderingTree::Node(child->platform_node),
        ),
{
    let rt = choose|rt: RenderingTree|
        #[trigger] internal.renders(props, rendering_component_id, next_event_ref, rt)
            && from_rendering(child, internal, props, prev, next_event_ref, next_event_ref_after, rt);
    assert(rt is Node);
}

/// `t` is a chain as a first render makes it: every component has exactly one
/// child subtree, and the platform node at the end replaced no node and has
/// no element yet.
pub open spec fn is_new_chain(t: TreeNode) -> bool
    decreases t,
{
    match t {
        TreeNode::Component { children, .. } => children@.len() == 1 && is_new_chain(children@[0]),
        TreeNode::PlatformNode { prev_platform_node, rendered_real_dom, .. } => {
            prev_platform_node is None && rendered_real_dom is None
        },
    }
}

proof fn lemma_child_reconciled_new_chain(
    child: TreeNode,
    rendering_component_id: u128,
    internal: InternalComponent,
    props: Props,
    next_event_ref: int,
    next_event_ref_after: int,
)
    requires
        child_reconciled(
            child,
            rendering_component_id,
            internal,
            props,
            None,
            next_event_ref,
            next_event_ref_after,
        ),
    ensures
        is_new_chain(child),
    decreases internal.kind().depth(), 0nat,
{
    let rt = choose|rt: RenderingTree|
        #[trigger] internal.renders(props, rendering_component_id, next_event_ref, rt)
            && from_rendering(child, internal, props, None, next_event_ref, next_event_ref_after, rt);
    if let RenderingTree::ComponentBlueprint { component_type_id, props: child_props } = rt {
        law_first_render_gives_new_chain(
            child,
            created(component_type_id),
            child_props,
            false,
            next_event_ref + internal.handlers_made(),
            next_event_ref_after,
        );
    }
}

/// Rendering a component with no tree before gives a chain: each component
/// over a single subtree, down to one platform node that replaced no node
/// and has no element; the component at the top is the one rendered.
pub proof fn law_first_render_gives_new_chain(
    result: TreeNode,
    internal: InternalComponent,
    props: Props,
    force_render: bool,
    next_event_ref: int,
    next_event_ref_after: int,
)
    requires
        reconciled_as(result, internal, props, None, force_render, next_event_ref, next_event_ref_after),
    ensures
        is_new_chain(result),
        result is Component,
        result->component.internal == internal,
        result->props == props,
    decreases internal.kind().depth(), 1nat,
{
    lemma_child_reconciled_new_chain(
        result->children@[0],
        result->component.id,
        internal,
        props,
        next_event_ref,
        next_event_ref_after,
    );
}

/// Rendering a component again in place is rendering it, forced, against a
/// tree that holds its old children: the first old child subtree is the one
/// the new render is reconciled against, the others are dropped, and the
/// component keeps its instance id and props.
pub proof fn law_top_reconciliation_is_forced_reconciliation(
    result: TreeNode,
    tree: TreeNode,
    other: crate::component::ComponentWrapper,
    other_props: Props,
    next_event_ref: int,
    next_event_ref_after: int,
)
    requires
        tree is Component,
    ensures
        top_reconciled(result, tree, next_event_ref, next_event_ref_after) <==> (reconciled_as(
            result,
            tree->component.internal,
            tree->props,
            Some(
                TreeNode::Component {
                    component: other,
                    props: other_props,
                    children: tree->children,
                },
            ),
            true,
            next_event_ref,
            next_event_ref_after,
        ) && result->component.id == tree->component.id),
{
}

/// The component instances that the handlers in `props` deliver to.
pub open spec fn props_targets(props: Props) -> Set<u128> {
    match props {
        Props::Me1(p) => set![p.on_button_click.instance_id],
        _ => Set::empty(),
    }
}

/// Every handler in `t` (held by a button, or carried in the props of a
/// component) is delivered to a component in `ancestors` or to a component
/// above it within `t`.
pub open spec fn handlers_within(t: TreeNode, ancestors: Set<u128>) -> bool
    decreases t,
{
    match t {
        TreeNode::Component { component, props, children } => {
            &&& props_targets(props).subset_of(ancestors)
            &&& forall|i: int|
                0 <= i < children@.len() ==> handlers_within(
                    #[trigger] children@[i],
                    ancestors.insert(component.id),
                )
        },
        TreeNode::PlatformNode { platform_node, .. } => match platform_node {
            PlatformNode::Button(b) => ancestors.contains(b.on_click.instance_id),
            PlatformNode::Text(_) => true,
        },
    }
}

/// Every component subtree of `t` reaches the components above it only
/// through the handlers in its own props.
pub open spec fn self_contained(t: TreeNode) -> bool
    decreases t,
{
    match t {
        TreeNode::Component { props, children, .. } => {
            &&& handlers_within(t, props_targets(props))
            &&& forall|i: int| 0 <= i < children@.len() ==> self_contained(#[trigger] children@[i])
        },
        TreeNode::PlatformNode { .. } => true,
    }
}

/// Every handler in the tree is delivered to a component above the node that
/// holds it.
pub open spec fn handlers_target_ancestors(t: TreeNode) -> bool {
    self_contained(t) && handlers_within(t, Set::empty())
}

/// Handlers within a set of components are within any larger set.
pub proof fn lemma_handlers_within_mono(t: TreeNode, a: Set<u128>, b: Set<u128>)
    requires
        handlers_within(t, a),
        a.subset_of(b),
    ensures
        handlers_within(t, b),
    decreases t,
{
    if let TreeNode::Component { component, children, .. } = t {
        assert forall|i: int| 0 <= i < children@.len() implies handlers_within(
            #[trigger] children@[i],
            b.insert(component.id),
        ) by {
            lemma_handlers_within_mono(children@[i], a.insert(component.id), b.insert(component.id));
        }
    }
}

/// The first child subtree of a self-contained tree is self-contained.
proof fn lemma_first_child_self_contained(t: TreeNode)
    requires
        self_contained(t),
    ensures
        first_child(t) matches Some(c) ==> self_contained(c),
{
    if let TreeNode::Component { children, .. } = t {
        if children@.len() > 0 {
            assert(self_contained(children@[0]));
        }
    }
}

/// A rendered child subtree is self-contained, and its handlers go to the
/// rendering instance or to where the handlers in the props go.
proof fn lemma_child_reconciled_self_contained(
    child: TreeNode,
    rendering_component_id: u128,
    internal: InternalComponent,
    props: Props,
    prev: Option<TreeNode>,
    next_event_ref: int,
    next_event_ref_after: int,
)
    requires
        child_reconciled(
            child,
            rendering_component_id,
            internal,
            props,
            prev,
            next_event_ref,
            next_event_ref_after,
        ),
        prev matches Some(p) ==> self_contained(p),
    ensures
        self_contained(child),
        handlers_within(child, props_targets(props).insert(rendering_component_id)),
    decreases internal.kind().depth(), 0nat,
{
    let rt = choose|rt: RenderingTree|
        #[trigger] internal.renders(props, rendering_component_id, next_event_ref, rt)
            && from_rendering(child, internal, props, prev, next_event_ref, next_event_ref_after, rt);
    let ids = props_targets(props).insert(rendering_component_id);
    match rt {
        RenderingTree::ComponentBlueprint { component_type_id, props: child_props } => {
            lemma_reconciled_self_contained(
                child,
                created(component_type_id),
                child_props,
                prev,
                false,
                next_event_ref + internal.handlers_made(),
                next_event_ref_after,
            );
            assert(props_targets(child_props).subset_of(ids));
            lemma_handlers_within_mono(child, props_targets(child_props), ids);
        },
        RenderingTree::Node(_) => {},
    }
}

/// A reconciled tree is self-contained where the tree it was reconciled
/// against was, and its handlers go where the handlers in its props go.
pub proof fn lemma_reconciled_self_contained(
    result: TreeNode,
    internal: InternalComponent,
    props: Props,
    prev: Option<TreeNode>,
    force_render: bool,
    next_event_ref: int,
    next_event_ref_after: int,
)
    requires
        reconciled_as(result, internal, props, prev, force_render, next_event_ref, next_event_ref_after),
        prev matches Some(p) ==> self_contained(p),
    ensures
        self_contained(result),
        handlers_within(result, props_targets(props)),
    decreases internal.kind().depth(), 1nat,
{
    if keeps_prev(internal.kind(), props, prev, force_render) {
        assert(props_targets(result->props) =~= props_targets(props));
    } else {
        if let Some(p) = prev {
            lemma_first_child_self_contained(p);
        }
        let component = result->component;
        let children = result->children;
        lemma_child_reconciled_self_contained(
            children@[0],
            component.id,
            internal,
            props,
            prev_child(prev),
            next_event_ref,
            next_event_ref_after,
        );
        assert(props_targets(props).subset_of(props_targets(props)));
    }
}

/// Where the children of `t` from index `i` to `k` are, and child `k` holds
/// the instance `id`, the children from `i` on hold it.
proof fn lemma_children_have_at(t: TreeNode, id: u128, i: int, k: int)
    requires
        0 <= i <= k < t.num_children(),
        t.child(k).has_component(id),
    ensures
        t.children_have_component(id, i),
    decreases k - i,
{
    if i < k {
        lemma_children_have_at(t, id, i + 1, k);
    }
}

/// A replacement of the target of `id` happens only where `id` is in the tree.
proof fn lemma_replaced_has(t: TreeNode, r: TreeNode, id: u128, n: TreeNode)
    requires
        t.is_replaced(r, id, n),
    ensures
        t.has_component(id),
    decreases t,
{
    if !t.is_component_with(id) {
        let k = t.first_with(id, 0);
        lemma_replaced_has(t.child(k), r.child(k), id, n);
        lemma_children_have_at(t, id, 0, k);
    }
}

/// The subtree that an edit reaches in a self-contained tree is
/// self-contained.
proof fn lemma_target_self_contained(t: TreeNode, id: u128)
    requires
        t.has_component(id),
        self_contained(t),
    ensures
        self_contained(t.target(id)),
    decreases t,
{
    if !t.is_component_with(id) {
        crate::tree_node::lemma_first_with(t, id, 0);
        let k = t.first_with(id, 0);
        assert(self_contained(t->children@[k]));
        lemma_target_self_contained(t.child(k), id);
    }
}

/// Putting in place of the target a self-contained component with the same
/// props keeps a tree self-contained, and keeps its handlers where they were.
proof fn lemma_replaced_self_contained(
    t: TreeNode,
    r: TreeNode,
    id: u128,
    n: TreeNode,
    ancestors: Set<u128>,
)
    requires
        t.is_replaced(r, id, n),
        self_contained(t),
        self_contained(n),
        n is Component,
        n->props == t.target(id)->props,
    ensures
        self_contained(r),
        handlers_within(t, ancestors) ==> handlers_within(r, ancestors),
    decreases t,
{
    if t.is_component_with(id) {
        if handlers_within(t, ancestors) {
            lemma_handlers_within_mono(n, props_targets(n->props), ancestors);
        }
    } else {
        let k = t.first_with(id, 0);
        let c = t->component;
        let p = t->props;
        let ck = t.child(k);
        let rk = r.child(k);
        assert(self_contained(t->children@[k]));
        lemma_replaced_self_contained(ck, rk, id, n, props_targets(p).insert(c.id));
        lemma_replaced_self_contained(ck, rk, id, n, ancestors.insert(c.id));
        assert forall|i: int| 0 <= i < r.num_children() implies handlers_within(
            #[trigger] r->children@[i],
            props_targets(p).insert(c.id),
        ) by {
            if i != k {
                assert(r->children@[i] == t->children@[i]);
            }
        }
        assert forall|i: int| 0 <= i < r.num_children() implies self_contained(
            #[trigger] r->children@[i],
        ) by {
            if i != k {
                assert(r->children@[i] == t->children@[i]);
            }
        }
        if handlers_within(t, ancestors) {
            assert forall|i: int| 0 <= i < r.num_children() implies handlers_within(
                #[trigger] r->children@[i],
                ancestors.insert(c.id),
            ) by {
                if i != k {
                    assert(r->children@[i] == t->children@[i]);
                }
            }
        }
    }
}

/// Mounting a root whose props carry no handlers gives a tree whose handlers
/// all go to components above the nodes that hold them.
pub proof fn law_mount_handlers_target_ancestors(
    r: TreeNode,
    props: Props,
    next_event_ref: int,
    next_event_ref_after: int,
)
    requires
        reconciled_as(r, created(props.kind()), props, None, true, next_event_ref, next_event_ref_after),
        props_targets(props) == Set::<u128>::empty(),
    ensures
        handlers_target_ancestors(r),
{
    lemma_reconciled_self_contained(
        r,
        created(props.kind()),
        props,
        None,
        true,
        next_event_ref,
        next_event_ref_after,
    );
}

/// Handling an event keeps every handler going to a component above the node
/// that holds it.
pub proof fn law_handle_event_keeps_handlers_targeting_ancestors(
    tree: TreeNode,
    event: Event,
    r: TreeNode,
    next_event_ref: int,
    next_event_ref_after: int,
)
    requires
        handlers_target_ancestors(tree),
        handled(r, tree, event, next_event_ref, next_event_ref_after),
    ensures
        handlers_target_ancestors(r),
{
    if let Some(handler) = triggered_handler(tree, event) {
        let id = handler.instance_id;
        let n = choose|n: TreeNode|
            updated_and_rerendered(tree.target(id), handler.event, n, next_event_ref, next_event_ref_after)
                && tree.is_replaced(r, id, n);
        lemma_replaced_has(tree, r, id, n);
        lemma_target_self_contained(tree, id);
        let owner = tree.target(id);
        lemma_first_child_self_contained(owner);
        let child = n->children@[0];
        lemma_child_reconciled_self_contained(
            child,
            owner->component.id,
            owner->component.internal.updated(handler.event),
            owner->props,
            first_child(owner),
            next_event_ref,
            next_event_ref_after,
        );
        assert(props_targets(owner->props).subset_of(props_targets(owner->props)));
        lemma_replaced_self_contained(tree, r, id, n, Set::empty());
    }
}

/// Where `find_pn_from` finds a node, a child at that index or later finds it.
proof fn lemma_find_pn_from_child(t: TreeNode, id: u128, i: int)
    requires
        0 <= i,
        t.find_pn_from(id, i) is Some,
    ensures
        exists|j: int|
            i <= j < t.num_children() && #[trigger] t.child(j).find_pn(id) == t.find_pn_from(id, i),
    decreases t.num_children() - i,
{
    if t.child(i).find_pn(id) is None {
        lemma_find_pn_from_child(t, id, i + 1);
    }
}

/// The handler of a button found in `t` goes to a component in `ancestors`
/// or in `t`.
proof fn lemma_found_button_handler(t: TreeNode, ancestors: Set<u128>, id: u128)
    requires
        handlers_within(t, ancestors),
        t.find_pn(id) matches Some(PlatformNode::Button(_)),
    ensures
        t.find_pn(id) matches Some(PlatformNode::Button(b)) && (ancestors.contains(
            b.on_click.instance_id,
        ) || t.has_component(b.on_click.instance_id)),
    decreases t,
{
    if let TreeNode::Component { component, children, .. } = t {
        lemma_find_pn_from_child(t, id, 0);
        let j = choose|j: int| 0 <= j < t.num_children() && #[trigger] t.child(j).find_pn(id) == t.find_pn_from(id, 0);
        assert(handlers_within(children@[j], ancestors.insert(component.id)));
        lemma_found_button_handler(t.child(j), ancestors.insert(component.id), id);
        let x = t.find_pn(id)->0->Button_0.on_click.instance_id;
        if t.child(j).has_component(x) {
            lemma_children_have_at(t, x, 0, j);
        }
    }
}

/// Where every handler goes to a component above the node that holds it, the
/// handler of any button found in the tree goes to a component in the tree:
/// the component that an event on a shown button is delivered to is there.
pub proof fn law_button_handler_target_in_tree(t: TreeNode, id: u128)
    requires
        handlers_target_ancestors(t),
        t.find_pn(id) matches Some(PlatformNode::Button(_)),
    ensures
        t.find_pn(id) matches Some(PlatformNode::Button(b)) && t.has_component(b.on_click.instance_id),
{
    lemma_found_button_handler(t, Set::empty(), id);
}

/// The handler that `node` holds, if it is a button.
pub open spec fn node_event_ref_below(node: PlatformNode, bound: int) -> bool {
    match node {
        PlatformNode::Button(b) => b.on_click.event_ref < bound,
        PlatformNode::Text(_) => true,
    }
}

/// The handlers that `props` carry share event values below `bound`.
pub open spec fn props_event_refs_below(props: Props, bound: int) -> bool {
    match props {
        Props::Me1(p) => p.on_button_click.event_ref < bound,
        _ => true,
    }
}

/// Every handler in `t` (held by a button, by the button it replaced, or
/// carried in the props of a component) shares an event value below `bound`:
/// it was made before the handler counter reached `bound`.
pub open spec fn event_refs_below(t: TreeNode, bound: int) -> bool
    decreases t,
{
    match t {
        TreeNode::Component { props, children, .. } => {
            &&& props_event_refs_below(props, bound)
            &&& forall|i: int| 0 <= i < children@.len() ==> event_refs_below(#[trigger] children@[i], bound)
        },
        TreeNode::PlatformNode { platform_node, prev_platform_node, .. } => {
            &&& node_event_ref_below(platform_node, bound)
            &&& prev_platform_node matches Some(p) ==> node_event_ref_below(p, bound)
        },
    }
}

/// Handlers below one bound are below any larger bound.
pub proof fn lemma_event_refs_below_mono(t: TreeNode, a: int, b: int)
    requires
        event_refs_below(t, a),
        a <= b,
    ensures
        event_refs_below(t, b),
    decreases t,
{
    if let TreeNode::Component { children, .. } = t {
        assert forall|i: int| 0 <= i < children@.len() implies event_refs_below(
            #[trigger] children@[i],
            b,
        ) by {
            lemma_event_refs_below_mono(children@[i], a, b);
        }
    }
}

proof fn lemma_first_child_event_refs_below(t: TreeNode, bound: int)
    requires
        event_refs_below(t, bound),
    ensures
        first_child(t) matches Some(c) ==> event_refs_below(c, bound),
{
    if let TreeNode::Component { children, .. } = t {
        if children@.len() > 0 {
            assert(event_refs_below(children@[0], bound));
        }
    }
}

/// A rendered child subtree holds only handlers made before the counter
/// reached where it stands after the render, and the counter only grows.
proof fn lemma_child_reconciled_event_refs(
    child: TreeNode,
    rendering_component_id: u128,
    internal: InternalComponent,
    props: Props,
    prev: Option<TreeNode>,
    next_event_ref: int,
    next_event_ref_after: int,
)
    requires
        child_reconciled(
            child,
            rendering_component_id,
            internal,
            props,
            prev,
            next_event_ref,
            next_event_ref_after,
        ),
        props_event_refs_below(props, next_event_ref),
        prev matches Some(p) ==> event_refs_below(p, next_event_ref),
    ensures
        event_refs_below(child, next_event_ref_after),
        next_event_ref <= next_event_ref_after,
    decreases internal.kind().depth(), 0nat,
{
    let rt = choose|rt: RenderingTree|
        #[trigger] internal.renders(props, rendering_component_id, next_event_ref, rt)
            && from_rendering(child, internal, props, prev, next_event_ref, next_event_ref_after, rt);
    let next = next_event_ref + internal.handlers_made();
    if let Some(p) = prev {
        lemma_event_refs_below_mono(p, next_event_ref, next);
    }
    if let RenderingTree::ComponentBlueprint { component_type_id, props: child_props } = rt {
        lemma_reconciled_event_refs(
            child,
            created(component_type_id),
            child_props,
            prev,
            false,
            next,
            next_event_ref_after,
        );
    }
}

/// A reconciled tree holds only handlers made before the counter reached
/// where it stands after the reconciliation, where the tree it was
/// reconciled against and the props held only handlers made before the
/// counter stood where it started; and the counter only grows.
pub proof fn lemma_reconciled_event_refs(
    result: TreeNode,
    internal: InternalComponent,
    props: Props,
    prev: Option<TreeNode>,
    force_render: bool,
    next_event_ref: int,
    next_event_ref_after: int,
)
    requires
        reconciled_as(result, internal, props, prev, force_render, next_event_ref, next_event_ref_after),
        props_event_refs_below(props, next_event_ref),
        prev matches Some(p) ==> event_refs_below(p, next_event_ref),
    ensures
        event_refs_below(result, next_event_ref_after),
        next_event_ref <= next_event_ref_after,
    decreases internal.kind().depth(), 2nat,
{
    if !keeps_prev(internal.kind(), props, prev, force_render) {
        if let Some(p) = prev {
            lemma_first_child_event_refs_below(p, next_event_ref);
        }
        let children = result->children;
        lemma_child_reconciled_event_refs(
            children@[0],
            result->component.id,
            internal,
            props,
            prev_child(prev),
            next_event_ref,
            next_event_ref_after,
        );
        assert(event_refs_below(children@[0], next_event_ref_after));
    }
}

/// The subtree that an edit reaches holds only handlers below a bound where
/// the tree does.
proof fn lemma_target_event_refs_below(t: TreeNode, id: u128, bound: int)
    requires
        t.has_component(id),
        event_refs_below(t, bound),
    ensures
        event_refs_below(t.target(id), bound),
    decreases t,
{
    if !t.is_component_with(id) {
        crate::tree_node::lemma_first_with(t, id, 0);
        let k = t.first_with(id, 0);
        assert(event_refs_below(t->children@[k], bound));
        lemma_target_event_refs_below(t.child(k), id, bound);
    }
}

/// Putting in place of the target a subtree whose handlers are below a bound
/// keeps a tree's handlers below it.
proof fn lemma_replaced_event_refs_below(t: TreeNode, r: TreeNode, id: u128, n: TreeNode, bound: int)
    requires
        t.is_replaced(r, id, n),
        event_refs_below(t, bound),
        event_refs_below(n, bound),
    ensures
        event_refs_below(r, bound),
    decreases t,
{
    if !t.is_component_with(id) {
        let k = t.first_with(id, 0);
        assert(event_refs_below(t->children@[k], bound));
        lemma_replaced_event_refs_below(t.child(k), r.child(k), id, n, bound);
        assert forall|i: int| 0 <= i < r.num_children() implies event_refs_below(
            #[trigger] r->children@[i],
            bound,
        ) by {
            if i != k {
                assert(r->children@[i] == t->children@[i]);
            }
        }
    }
}

/// Mounting with props that carry no handler newer than the counter gives a
/// tree whose handlers were all made before the counter reached where it
/// stands after the mount.
pub proof fn law_mount_event_refs_below(
    r: TreeNode,
    props: Props,
    next_event_ref: int,
    next_event_ref_after: int,
)
    requires
        reconciled_as(r, created(props.kind()), props, None, true, next_event_ref, next_event_ref_after),
        props_event_refs_below(props, next_event_ref),
    ensures
        event_refs_below(r, next_event_ref_after),
{
    lemma_reconciled_event_refs(
        r,
        created(props.kind()),
        props,
        None,
        true,
        next_event_ref,
        next_event_ref_after,
    );
}

/// Handling an event keeps every handler of the tree older than the handler
/// counter: a tree whose handlers were made before the counter stood where
/// it starts becomes one whose handlers were made before it stands where it
/// ends.
pub proof fn law_handle_event_keeps_event_refs_below(
    tree: TreeNode,
    event: Event,
    r: TreeNode,
    next_event_ref: int,
    next_event_ref_after: int,
)
    requires
        event_refs_below(tree, next_event_ref),
        handled(r, tree, event, next_event_ref, next_event_ref_after),
    ensures
        event_refs_below(r, next_event_ref_after),
        next_event_ref <= next_event_ref_after,
{
    if let Some(handler) = triggered_handler(tree, event) {
        let id = handler.instance_id;
        let n = choose|n: TreeNode|
            updated_and_rerendered(tree.target(id), handler.event, n, next_event_ref, next_event_ref_after)
                && tree.is_replaced(r, id, n);
        lemma_replaced_has(tree, r, id, n);
        lemma_target_event_refs_below(tree, id, next_event_ref);
        let owner = tree.target(id);
        lemma_first_child_event_refs_below(owner, next_event_ref);
        lemma_child_reconciled_event_refs(
            n->children@[0],
            owner->component.id,
            owner->component.internal.updated(handler.event),
            owner->props,
            first_child(owner),
            next_event_ref,
            next_event_ref_after,
        );
        assert(event_refs_below(n->children@[0], next_event_ref_after));
        assert(event_refs_below(n, next_event_ref_after));
        lemma_event_refs_below_mono(tree, next_event_ref, next_event_ref_after);
        lemma_replaced_event_refs_below(tree, r, id, n, next_event_ref_after);
    }
}

/// A handler made when the counter stands at `next_event_ref` differs from
/// every handler already in a tree whose handlers were made before: it
/// shares its event value with none of them, so it compares equal to none.
pub proof fn law_new_handler_differs_from_shown_buttons(
    t: TreeNode,
    next_event_ref: int,
    handler: crate::component::EventTo,
    node_id: u128,
)
    requires
        event_refs_below(t, next_event_ref),
        handler.event_ref == next_event_ref,
        t.find_pn(node_id) matches Some(PlatformNode::Button(_)),
    ensures
        t.find_pn(node_id) matches Some(PlatformNode::Button(b)) && handler.event_ref
            != b.on_click.event_ref,
    decreases t,
{
    if let TreeNode::Component { children, .. } = t {
        lemma_find_pn_from_child(t, node_id, 0);
        let j = choose|j: int|
            0 <= j < t.num_children() && #[trigger] t.child(j).find_pn(node_id) == t.find_pn_from(
                node_id,
                0,
            );
        assert(event_refs_below(children@[j], next_event_ref));
        law_new_handler_differs_from_shown_buttons(t.child(j), next_event_ref, handler, node_id);
    }
}

/// A handler and any handler made after it never compare equal, whatever
/// instance and event they carry: a new handler takes the counter's number
/// and the counter moves on past it, so a handler made later takes a larger
/// number.
pub proof fn law_separate_handlers_differ(
    first: crate::component::EventTo,
    later: crate::component::EventTo,
    counter_at_first: int,
    counter_at_later: int,
)
    requires
        first.event_ref == counter_at_first,
        later.event_ref == counter_at_later,
        counter_at_first + 1 <= counter_at_later,
    ensures
        !first.eq_spec(&later),
        !later.eq_spec(&first),
{
}


/// A shown button element gets a new label exactly when the new button's
/// text differs from the old one's as a string, and a new click handler
/// exactly when the node id changed; a button shown again unchanged needs
/// no change at all.
pub proof fn law_button_update_follows_changes(button: Button, prev_button: Button)
    ensures
        button_update_spec(button, prev_button).set_text_content <==> button.text@ != prev_button.text@,
        button_update_spec(button, prev_button).set_onclick <==> button.id != prev_button.id,
        button_update_spec(button, prev_button) == button_update_spec(prev_button, button),
        button_update_spec(button, button).set_text_content == false,
        button_update_spec(button, button).set_onclick == false,
{
}

/// A platform node without an element gets one made, whatever node it
/// replaced; a node with an element and no previous node keeps it; a node
/// with an element that replaced a node of the same kind is changed in
/// place (a button by the changes between the two buttons), and one that
/// replaced a node of the other kind has its element replaced.
pub proof fn law_sync_action_by_node_state(
    platform_node: PlatformNode,
    prev_platform_node: Option<PlatformNode>,
    handle: u64,
)
    ensures
        sync_action_spec(platform_node, prev_platform_node, None) == SyncAction::Create,
        sync_action_spec(platform_node, None, Some(handle)) == SyncAction::Keep,
        prev_platform_node matches Some(prev) ==> {
            let a = sync_action_spec(platform_node, prev_platform_node, Some(handle));
            &&& platform_node matches PlatformNode::Button(b) ==> (prev matches PlatformNode::Button(pb)
                ==> a == SyncAction::UpdateButton(button_update_spec(b, pb)))
            &&& (platform_node is Text && prev is Text) ==> a == SyncAction::UpdateText
            &&& (platform_node is Button) != (prev is Button) ==> a == SyncAction::Replace
        },
{
}

/// A `Me` or `Me1` takes a click of its own kind whenever its count can go
/// up by one without leaving `i32`, and only then; taking it adds one to the
/// count. A `MyRoot` takes its click always and stays as it is. No
/// component takes an event of another kind.
pub proof fn law_components_take_their_clicks(me: Me, me1: Me1, internal: InternalComponent, event: ComponentEvent)
    ensures
        InternalComponent::Me(me).accepts(ComponentEvent::Me(MeEvent::OnClick)) <==> me.x < i32::MAX,
        me.x < i32::MAX ==> InternalComponent::Me(me).updated(ComponentEvent::Me(MeEvent::OnClick))
            == InternalComponent::Me(Me { x: (me.x + 1) as i32 }),
        InternalComponent::Me1(me1).accepts(ComponentEvent::Me1(Me1Event::OnClick)) <==> me1.x < i32::MAX,
        me1.x < i32::MAX ==> InternalComponent::Me1(me1).updated(ComponentEvent::Me1(Me1Event::OnClick))
            == InternalComponent::Me1(Me1 { x: (me1.x + 1) as i32 }),
        internal is MyRoot ==> internal.accepts(ComponentEvent::MyRoot(MyRootEvent::OnClick))
            && internal.updated(ComponentEvent::MyRoot(MyRootEvent::OnClick)) == internal,
        internal.accepts(event) ==> internal.kind() == event.kind(),
{
}

/// Values of different event types are never stored in one payload: a
/// payload passes the type test of at most one event type, so an event made
/// from a value of one type fails the test of every other type.
pub proof fn law_event_types_are_disjoint(p: EventPayload)
    ensures
        !(ButtonEvent::holds(p) && ButtonClickEvent::holds(p)),
        !(ButtonEvent::holds(p) && MyRootEvent::holds(p)),
        !(ButtonEvent::holds(p) && MeEvent::holds(p)),
        !(ButtonEvent::holds(p) && Me1Event::holds(p)),
        !(ButtonEvent::holds(p) && NamsexEvent::holds(p)),
        !(ButtonClickEvent::holds(p) && MyRootEvent::holds(p)),
        !(ButtonClickEvent::holds(p) && MeEvent::holds(p)),
        !(ButtonClickEvent::holds(p) && Me1Event::holds(p)),
        !(ButtonClickEvent::holds(p) && NamsexEvent::holds(p)),
        !(MyRootEvent::holds(p) && MeEvent::holds(p)),
        !(MyRootEvent::holds(p) && Me1Event::holds(p)),
        !(MyRootEvent::holds(p) && NamsexEvent::holds(p)),
        !(MeEvent::holds(p) && Me1Event::holds(p)),
        !(MeEvent::holds(p) && NamsexEvent::holds(p)),
        !(Me1Event::holds(p) && NamsexEvent::holds(p)),
{
}

/// An event made from a `MeEvent` fails the `MyRootEvent` and `Me1Event`
/// tests, and one made from a `MyRootEvent` fails the `MeEvent` test.
pub proof fn law_event_of_one_type_fails_other_tests(me: MeEvent, root: MyRootEvent, me1: Me1Event)
    ensures
        MeEvent::holds(me.payload_of()) && !MyRootEvent::holds(me.payload_of())
            && !Me1Event::holds(me.payload_of()) && !ButtonEvent::holds(me.payload_of()),
        MyRootEvent::holds(root.payload_of()) && !MeEvent::holds(root.payload_of())
            && !Me1Event::holds(root.payload_of()),
        Me1Event::holds(me1.payload_of()) && !MeEvent::holds(me1.payload_of())
            && !MyRootEvent::holds(me1.payload_of()),
{
    MeEvent::lemma_payload(me, me);
    MyRootEvent::lemma_payload(root, root);
    Me1Event::lemma_payload(me1, me1);
    law_event_types_are_disjoint(me.payload_of());
    law_event_types_are_disjoint(root.payload_of());
    law_event_types_are_disjoint(me1.payload_of());
}

/// Handlers compare equal exactly when they go to the same instance and
/// share the same event value: the comparison is reflexive and symmetric,
/// handlers to different instances are never equal, and neither are
/// handlers with different shared event values.
pub proof fn law_handler_equality(a: EventTo, b: EventTo)
    ensures
        a.eq_spec(&a),
        a.eq_spec(&b) == b.eq_spec(&a),
        a.eq_spec(&b) ==> a.instance_id == b.instance_id,
        a.eq_spec(&b) ==> a.event_ref == b.event_ref,
        a.instance_id == b.instance_id && a.event_ref == b.event_ref ==> a.eq_spec(&b),
{
}

/// The props of a `Me1` compare equal exactly when their handlers compare
/// equal and their values are the same.
pub proof fn law_me1_props_equality(a: Me1Props, b: Me1Props)
    ensures
        a.eq_spec(&b) <==> (a.on_button_click.eq_spec(&b.on_button_click) && a.value == b.value),
        a.eq_spec(&b) == b.eq_spec(&a),
        a.eq_spec(&a),
{
}

} // verus!
