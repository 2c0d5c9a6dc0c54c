//! The tree of mounted components and platform nodes, and the searches and
//! the edit that events need.

use std::collections::{HashMap, VecDeque};

use vstd::prelude::*;
use vstd::std_specs::vecdeque::VecDequeAdditionalSpecFns;

use crate::component::{ComponentWrapper, Props};
use crate::platform_node::PlatformNode;

verus! {

/// A mounted tree: a component with the props it was rendered with and the
/// subtrees it rendered, or a platform node.
///
/// A platform node remembers the node it replaced (`prev_platform_node`), so
/// that the platform can update what it shows in place, and the handle of the
/// element the platform made for it (`rendered_real_dom`).
#[derive(Debug)]
pub enum TreeNode {
    Component { component: ComponentWrapper, props: Props, children: VecDeque<TreeNode> },
    PlatformNode {
        platform_node: PlatformNode,
        prev_platform_node: Option<PlatformNode>,
        rendered_real_dom: Option<u64>,
    },
}

impl TreeNode {
    pub open spec fn num_children(self) -> int {
        match self {
            TreeNode::Component { children, .. } => children@.len() as int,
            TreeNode::PlatformNode { .. } => 0,
        }
    }

    pub open spec fn child(self, i: int) -> TreeNode {
        self->children@[i]
    }

    /// This node is the component instance `id`.
    pub open spec fn is_component_with(self, id: u128) -> bool {
        self matches TreeNode::Component { component, .. } && component.id == id
    }

    /// The component instance `id` is in this tree.
    pub open spec fn has_component(self, id: u128) -> bool
        decreases self, self.num_children() + 1,
    {
        self.is_component_with(id) || self.children_have_component(id, 0)
    }

    /// The component instance `id` is in a child subtree at index `i` or later.
    pub open spec fn children_have_component(self, id: u128, i: int) -> bool
        decreases self, self.num_children() - i,
    {
        if 0 <= i < self.num_children() {
            self.child(i).has_component(id) || self.children_have_component(id, i + 1)
        } else {
            false
        }
    }

    /// The first platform node in tree order whose node id is `id`.
    pub open spec fn find_pn(self, id: u128) -> Option<PlatformNode>
        decreases self, self.num_children() + 1,
    {
        match self {
            TreeNode::Component { .. } => self.find_pn_from(id, 0),
            TreeNode::PlatformNode { platform_node, .. } => if platform_node.node_id() == id {
                Some(platform_node)
            } else {
                None
            },
        }
    }

    /// The first platform node with node id `id` in the child subtrees at
    /// index `i` and later.
    pub open spec fn find_pn_from(self, id: u128, i: int) -> Option<PlatformNode>
        decreases self, self.num_children() - i,
    {
        if 0 <= i < self.num_children() {
            match self.child(i).find_pn(id) {
                Some(p) => Some(p),
                None => self.find_pn_from(id, i + 1),
            }
        } else {
            None
        }
    }

    /// The index of the first child subtree at index `i` or later that holds
    /// the component instance `id`; the number of children if there is none.
    pub open spec fn first_with(self, id: u128, i: int) -> int
        decreases self.num_children() - i,
    {
        if 0 <= i < self.num_children() {
            if self.child(i).has_component(id) {
                i
            } else {
                self.first_with(id, i + 1)
            }
        } else {
            self.num_children()
        }
    }

    /// The subtree of the component instance `id` that an edit reaches: this
    /// node if it is that instance, else the one in the first child subtree
    /// that holds it.
    pub open spec fn target(self, id: u128) -> TreeNode
        decreases self,
    {
        if self.is_component_with(id) {
            self
        } else {
            let k = self.first_with(id, 0);
            if self is Component && 0 <= k < self.num_children() {
                self.child(k).target(id)
            } else {
                self
            }
        }
    }

    /// `result` is this tree with the subtree `target(id)` replaced by `new`.
    pub open spec fn is_replaced(self, result: TreeNode, id: u128, new: TreeNode) -> bool
        decreases self,
    {
        if self.is_component_with(id) {
            result == new
        } else {
            match self {
                TreeNode::Component { component, props, children } => {
                    let k = self.first_with(id, 0);
                    &&& 0 <= k < children@.len()
                    &&& result matches TreeNode::Component { component: c2, props: p2, children: ch2 }
                        && c2 == component && p2 == props && ch2@.len() == children@.len() && (
                    forall|j: int|
                        0 <= j < children@.len() && j != k ==> #[trigger] ch2@[j] == children@[j])
                        && children@[k].is_replaced(ch2@[k], id, new)
                },
                TreeNode::PlatformNode { .. } => false,
            }
        }
    }

    /// Every component in the tree holds props of its own kind.
    pub open spec fn wf(self) -> bool
        decreases self,
    {
        match self {
            TreeNode::Component { component, props, children } => {
                &&& props.kind() == component.internal.kind()
                &&& forall|i: int| 0 <= i < children@.len() ==> (#[trigger] children@[i]).wf()
            },
            TreeNode::PlatformNode { .. } => true,
        }
    }
}

/// A child subtree is smaller than the tree that holds it.
pub broadcast proof fn lemma_child_decreases(t: TreeNode, i: int)
    requires
        t is Component,
        0 <= i < t->children@.len(),
    ensures
        decreases_to!(t => #[trigger] t->children@[i]),
{
    let children = t->children;
    assert(decreases_to!(children => children[i]));
}

/// `owners` with an entry for every button of the tree `t`, in tree order:
/// the button's node id mapped to the instance id of the component directly
/// above it, the component whose render made the button.
pub open spec fn owners_recorded(t: TreeNode, owners: Map<u128, u128>) -> Map<u128, u128>
    decreases t, t.num_children() + 1,
{
    match t {
        TreeNode::Component { .. } => owners_recorded_from(t, 0, owners),
        TreeNode::PlatformNode { .. } => owners,
    }
}

/// `owners` with the entries for the buttons in the child subtrees of `t`
/// at index `i` and later.
pub open spec fn owners_recorded_from(t: TreeNode, i: int, owners: Map<u128, u128>) -> Map<u128, u128>
    decreases t, t.num_children() - i,
{
    if 0 <= i < t.num_children() {
        let next = match t.child(i) {
            TreeNode::PlatformNode { platform_node: PlatformNode::Button(b), .. } => owners.insert(
                b.id,
                t->component.id,
            ),
            TreeNode::PlatformNode { .. } => owners,
            TreeNode::Component { .. } => owners_recorded(t.child(i), owners),
        };
        owners_recorded_from(t, i + 1, next)
    } else {
        owners
    }
}

/// Where the children of `t` hold the component instance `id` at index `i` or
/// later, `first_with` finds such a child.
pub proof fn lemma_first_with(t: TreeNode, id: u128, i: int)
    requires
        0 <= i,
        t.children_have_component(id, i),
    ensures
        i <= t.first_with(id, i) < t.num_children(),
        t.child(t.first_with(id, i)).has_component(id),
    decreases t.num_children() - i,
{
    if !t.child(i).has_component(id) {
        lemma_first_with(t, id, i + 1);
    }
}

/// The subtree that an edit reaches is the component instance itself, and it
/// is well formed where the tree is.
pub proof fn lemma_target(t: TreeNode, id: u128)
    requires
        t.has_component(id),
    ensures
        t.target(id).is_component_with(id),
        t.wf() ==> t.target(id).wf(),
    decreases t,
{
    if !t.is_component_with(id) {
        lemma_first_with(t, id, 0);
        let k = t.first_with(id, 0);
        lemma_target(t.child(k), id);
    }
}

/// Putting a well formed subtree in place of the target of a well formed tree
/// gives a well formed tree.
pub proof fn lemma_replaced_wf(t: TreeNode, result: TreeNode, id: u128, new: TreeNode)
    requires
        t.wf(),
        new.wf(),
        t.is_replaced(result, id, new),
    ensures
        result.wf(),
    decreases t,
{
    if !t.is_component_with(id) {
        let k = t.first_with(id, 0);
        lemma_replaced_wf(t.child(k), result.child(k), id, new);
        assert forall|j: int| 0 <= j < result.num_children() implies (#[trigger] result->children@[j]).wf() by {
            if j != k {
                assert(result->children@[j] == t->children@[j]);
            }
        }
    }
}

impl TreeNode {
    /// Whether the component instance `component_id` is in this tree.
    pub fn has_owner_of_component_node_recursively(&self, component_id: u128) -> (r: bool)
        ensures
            r == self.has_component(component_id),
        decreases self,
    {
        match self {
            TreeNode::Component { component, children, .. } => {
                if component.id == component_id {
                    true
                } else {
                    let mut i: usize = 0;
                    while i < children.len()
                        invariant
                            *self is Component,
                            self->children@ == children@,
                            0 <= i <= children@.len(),
                            !self.is_component_with(component_id),
                            self.children_have_component(component_id, 0)
                                == self.children_have_component(component_id, i as int),
                        decreases children@.len() - i,
                    {
                        if children[i].has_owner_of_component_node_recursively(component_id) {
                            return true;
                        }
                        i += 1;
                    }
                    false
                }
            },
            TreeNode::PlatformNode { .. } => false,
        }
    }

    /// Hands the subtree of the component instance `component_id` (see
    /// [`TreeNode::target`]) to `callback`, together with `state`, and puts
    /// the subtree it returns in its place; the state it returns comes back
    /// beside the tree. Without that instance in the tree, the tree and the
    /// state come back as they were, as an error.
    pub fn edit_component_node<S>(
        self,
        component_id: u128,
        state: S,
        callback: impl FnOnce(TreeNode, S) -> (TreeNode, S),
    ) -> (r: Result<(TreeNode, S), (TreeNode, S)>)
        requires
            self.has_component(component_id) ==> call_requires(
                callback,
                (self.target(component_id), state),
            ),
        ensures
            r is Ok <==> self.has_component(component_id),
            r matches Ok((t, s)) ==> exists|n: TreeNode|
                call_ensures(callback, (self.target(component_id), state), (n, s))
                    && self.is_replaced(t, component_id, n),
            r matches Err((t, s)) ==> t == self && s == state,
        decreases self,
    {
        let ghost old_self = self;
        let ghost cb = callback;
        let ghost old_state = state;
        let is_me = match &self {
            TreeNode::Component { component, .. } => component.id == component_id,
            TreeNode::PlatformNode { .. } => false,
        };
        if is_me {
            let (replaced, state) = callback(self, state);
            assert(old_self.is_replaced(replaced, component_id, replaced));
            return Ok((replaced, state));
        }
        match self {
            TreeNode::Component { component, props, mut children } => {
                let mut i: usize = 0;
                while i < children.len()
                    invariant
                        old_self == (TreeNode::Component { component, props, children }),
                        old_self == self,
                        cb == callback,
                        old_state == state,
                        0 <= i <= children@.len(),
                        !old_self.is_component_with(component_id),
                        old_self.has_component(component_id) ==> call_requires(
                            callback,
                            (old_self.target(component_id), state),
                        ),
                        old_self.children_have_component(component_id, 0)
                            == old_self.children_have_component(component_id, i as int),
                        old_self.first_with(component_id, 0) == old_self.first_with(
                            component_id,
                            i as int,
                        ),
                    decreases children@.len() - i,
                {
                    if children[i].has_owner_of_component_node_recursively(component_id) {
                        let ghost old_children = children@;
                        let child = children.remove(i).unwrap();
                        proof {
                            assert(old_self.target(component_id) == child.target(component_id));
                        }
                        let (edited, state) = match child.edit_component_node(
                            component_id,
                            state,
                            callback,
                        ) {
                            Ok(edited) => edited,
                            Err(_) => vstd::pervasive::unreached(),
                        };
                        children.insert(i, edited);
                        let result = TreeNode::Component { component, props, children };
                        proof {
                            let n = choose|n: TreeNode|
                                call_ensures(cb, (child.target(component_id), old_state), (n, state))
                                    && child.is_replaced(edited, component_id, n);
                            assert(children@ =~= old_children.update(i as int, edited));
                            assert(old_self.is_replaced(result, component_id, n));
                        }
                        return Ok((result, state));
                    }
                    i += 1;
                }
                Err((TreeNode::Component { component, props, children }, state))
            },
            other => Err((other, state)),
        }
    }

    /// The component of the subtree that an edit for the instance
    /// `component_id` reaches (see [`TreeNode::target`]).
    pub fn target_component(&self, component_id: u128) -> (r: &ComponentWrapper)
        requires
            self.has_component(component_id),
        ensures
            *r == self.target(component_id)->component,
        decreases self,
    {
        match self {
            TreeNode::Component { component, children, .. } => {
                if component.id == component_id {
                    return component;
                }
                let mut i: usize = 0;
                while i < children.len()
                    invariant
                        *self is Component,
                        self->children@ == children@,
                        0 <= i <= children@.len(),
                        !self.is_component_with(component_id),
                        self.has_component(component_id),
                        self.children_have_component(component_id, i as int),
                        self.first_with(component_id, 0) == self.first_with(component_id, i as int),
                    decreases children@.len() - i,
                {
                    if children[i].has_owner_of_component_node_recursively(component_id) {
                        return children[i].target_component(component_id);
                    }
                    i += 1;
                }
                vstd::pervasive::unreached()
            },
            TreeNode::PlatformNode { .. } => vstd::pervasive::unreached(),
        }
    }

    /// Records in `platform_node_owner_id_map`, for every button of the tree,
    /// which component instance owns it: the one directly above it, whose
    /// render made it.
    pub fn record_platform_node_owners(&self, platform_node_owner_id_map: &mut HashMap<u128, u128>)
        ensures
            final(platform_node_owner_id_map)@ == owners_recorded(*self, old(platform_node_owner_id_map)@),
        decreases self,
    {
        match self {
            TreeNode::Component { component, children, .. } => {
                let mut i: usize = 0;
                while i < children.len()
                    invariant
                        *self is Component,
                        self->children@ == children@,
                        self->component == *component,
                        0 <= i <= children@.len(),
                        owners_recorded(*self, old(platform_node_owner_id_map)@) == owners_recorded_from(
                            *self,
                            i as int,
                            platform_node_owner_id_map@,
                        ),
                    decreases children@.len() - i,
                {
                    match &children[i] {
                        TreeNode::PlatformNode { platform_node: PlatformNode::Button(b), .. } => {
                            platform_node_owner_id_map.insert(b.id, component.id);
                        },
                        TreeNode::PlatformNode { .. } => {},
                        TreeNode::Component { .. } => {
                            children[i].record_platform_node_owners(platform_node_owner_id_map);
                        },
                    }
                    i += 1;
                }
            },
            TreeNode::PlatformNode { .. } => {},
        }
    }

    /// The first platform node in tree order whose node id is `node_id`.
    pub fn find_platform_node(&self, node_id: u128) -> (r: Option<&PlatformNode>)
        ensures
            r is Some <==> self.find_pn(node_id) is Some,
            r matches Some(p) ==> self.find_pn(node_id) == Some(*p),
        decreases self,
    {
        match self {
            TreeNode::Component { children, .. } => {
                let mut i: usize = 0;
                while i < children.len()
                    invariant
                        *self is Component,
                        self->children@ == children@,
                        0 <= i <= children@.len(),
                        self.find_pn_from(node_id, 0) == self.find_pn_from(node_id, i as int),
                    decreases children@.len() - i,
                {
                    if let Some(platform_node) = children[i].find_platform_node(node_id) {
                        return Some(platform_node);
                    }
                    i += 1;
                }
                None
            },
            TreeNode::PlatformNode { platform_node, .. } => {
                if platform_node.id() == node_id {
                    Some(platform_node)
                } else {
                    None
                }
            },
        }
    }
}

} // verus!
