use vstd::prelude::*;

use crate::component::RenderingTree;
use crate::ids::{fresh_id, is_fresh_id};
use crate::platform_node::PlatformNode;

verus! {

/// A text platform node.
#[derive(Debug)]
pub struct Text {
    pub id: u128,
    pub text: String,
}

impl Text {
    /// A text node showing `text`, with a fresh node id.
    pub fn render(text: &str) -> (r: RenderingTree)
        ensures
            r matches RenderingTree::Node(PlatformNode::Text(t)) && t.text@ == text@ && is_fresh_id(
                t.id,
            ),
    {
        RenderingTree::Node(PlatformNode::Text(Text { id: fresh_id(), text: text.to_owned() }))
    }
}

} // verus!
