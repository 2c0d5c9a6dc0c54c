//! What the platform has to do to show a platform node of the tree: the
//! decisions of a sync pass, which the platform carries out on its elements.

use vstd::prelude::*;

use crate::button::Button;
use crate::platform_node::PlatformNode;

verus! {

/// The changes a button element needs to show `button` where it showed the
/// previous button.
#[derive(Debug, Clone, Copy, PartialEq, Eq, Structural)]
pub struct ButtonUpdate {
    /// The label changed: set the element's text.
    pub set_text_content: bool,
    /// The node id changed: set the element's click handler to report clicks
    /// for the new node id.
    pub set_onclick: bool,
}

/// What to do with the element of one platform node.
#[derive(Debug, Clone, Copy, PartialEq, Eq, Structural)]
pub enum SyncAction {
    /// Leave the element as it is.
    Keep,
    /// Make an element for the node, append it and record its handle.
    Create,
    /// Remove the element, make one for the node in its place, append it and
    /// record its handle.
    Replace,
    /// Change the button element in place.
    UpdateButton(ButtonUpdate),
    /// Change the text element in place.
    UpdateText,
}

/// The changes from `prev_button` to `button`.
pub open spec fn button_update_spec(button: Button, prev_button: Button) -> ButtonUpdate {
    ButtonUpdate {
        set_text_content: button.text@ != prev_button.text@,
        set_onclick: button.id != prev_button.id,
    }
}

/// The changes a button element that shows `prev_button` needs to show
/// `button`.
pub fn update_button(button: &Button, prev_button: &Button) -> (r: ButtonUpdate)
    ensures
        r == button_update_spec(*button, *prev_button),
{
    ButtonUpdate {
        set_text_content: button.text != prev_button.text,
        set_onclick: button.id != prev_button.id,
    }
}

/// What a sync does with a platform node `platform_node` that replaced
/// `prev_platform_node`, whose element handle is `rendered_real_dom`: with
/// no element yet, make one; with an element and a previous node, change a
/// node in place or replace an element of the other kind; with an element
/// and no previous node, nothing.
pub open spec fn sync_action_spec(
    platform_node: PlatformNode,
    prev_platform_node: Option<PlatformNode>,
    rendered_real_dom: Option<u64>,
) -> SyncAction {
    match rendered_real_dom {
        None => SyncAction::Create,
        Some(_) => match prev_platform_node {
            None => SyncAction::Keep,
            Some(prev) => match (platform_node, prev) {
                (PlatformNode::Button(b), PlatformNode::Button(pb)) => SyncAction::UpdateButton(
                    button_update_spec(b, pb),
                ),
                (PlatformNode::Text(_), PlatformNode::Text(_)) => SyncAction::UpdateText,
                _ => SyncAction::Replace,
            },
        },
    }
}

/// Decides what a sync does with one platform node of the tree (see
/// [`sync_action_spec`]).
pub fn sync_action(
    platform_node: &PlatformNode,
    prev_platform_node: &Option<PlatformNode>,
    rendered_real_dom: &Option<u64>,
) -> (r: SyncAction)
    ensures
        r == sync_action_spec(*platform_node, *prev_platform_node, *rendered_real_dom),
{
    match rendered_real_dom {
        None => SyncAction::Create,
        Some(_) => match prev_platform_node {
            None => SyncAction::Keep,
            Some(prev) => match (platform_node, prev) {
                (PlatformNode::Button(button), PlatformNode::Button(prev_button)) => {
                    SyncAction::UpdateButton(update_button(button, prev_button))
                },
                (PlatformNode::Text(_), PlatformNode::Text(_)) => SyncAction::UpdateText,
                _ => SyncAction::Replace,
            },
        },
    }
}

} // verus!
