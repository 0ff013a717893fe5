use vstd::prelude::*;

use crate::events::{InboundInviteEvent, InboundMessageEvent, InviteEventView, MessageEventView};

verus! {

/// The invite record, if any, that the platform's invite-feed text decodes
/// to. A function of the text alone; left unstated because it abbreviates a
/// full generic-envelope parse.
pub uninterp spec fn spec_decode_invite(raw: Seq<char>) -> Option<InviteEventView>;

/// The message record, if any, that the platform's graph-feed text decodes
/// to. A function of the text alone; left unstated because it abbreviates a
/// full generic-envelope parse.
pub uninterp spec fn spec_decode_message(raw: Seq<char>) -> Option<MessageEventView>;

/// Relies on `json::parse` and on the `json` crate's `Display` rendering of
/// the fields under `invite-update.invite` (a string value renders bare, an
/// absent field renders as `null`): both are functions of the text alone.
/// Text that is not well-formed json decodes to no record.
#[verifier::external_body]
pub(crate) fn decode_invite_record(raw: &str) -> (r: Option<InboundInviteEvent>)
    ensures
        r.deep_view() == spec_decode_invite(raw@),
{
    let parsed = json::parse(raw).ok()?;
    let invite = &parsed["invite-update"]["invite"];
    Some(InboundInviteEvent {
        resource_name: invite["invite"]["resource"]["name"].to_string(),
        resource_ship: invite["invite"]["resource"]["ship"].to_string(),
        uid: invite["uid"].to_string(),
    })
}

/// Relies on `json::parse`, the `json` crate's `Display` rendering of the
/// fields under `graph-update.add-nodes.resource`, and on
/// `urbit_http_api::Node::from_graph_update_json` for the appended node;
/// the node's contents are carried as the json text of its contents array
/// (`NodeContents::to_json` and `JsonValue::dump`). All are functions of
/// the text alone, and none of them panics. Text that is not well-formed
/// json, or whose node part does not parse, decodes to no record.
#[verifier::external_body]
pub(crate) fn decode_message_record(raw: &str) -> (r: Option<InboundMessageEvent>)
    ensures
        r.deep_view() == spec_decode_message(raw@),
{
    let parsed = json::parse(raw).ok()?;
    let node = urbit_http_api::Node::from_graph_update_json(&parsed).ok()?;
    let resource = &parsed["graph-update"]["add-nodes"]["resource"];
    Some(InboundMessageEvent {
        resource_name: resource["name"].to_string(),
        reply_to: resource["ship"].to_string(),
        author: node.author,
        contents: node.contents.to_json().dump(),
    })
}

} // verus!
