use vstd::prelude::*;

use crate::events::{InboundInviteEvent, InboundMessageEvent, InviteEventView, MessageEventView};
use crate::identity::ConversationIdentity;

verus! {

/// What the classifier decides about one message event.
#[derive(Debug, Clone, Copy, PartialEq, Eq, Structural)]
pub enum MessageDisposition {
    /// The event's resource is not the tracked conversation.
    IgnoreWrongConversation,
    /// The event was authored by the session's own identity.
    IgnoreSelfAuthored,
    /// The event belongs to the conversation and was authored by a peer.
    Accept,
}

/// An invite is relevant exactly when its target resource name equals the
/// session's conversation key.
pub open spec fn spec_invite_relevant(ev: InviteEventView, ident: Seq<char>) -> bool {
    ev.resource_name == ident
}

/// Decide whether an invite event belongs to the tracked conversation.
/// Comparison is exact; a record without a proper resource name never
/// compares equal, so it is dropped rather than raised as an error.
pub fn is_invite_relevant(ev: &InboundInviteEvent, ident: &ConversationIdentity) -> (r: bool)
    ensures
        r == spec_invite_relevant(ev@, ident@),
{
    ev.resource_name == ident.name
}

/// The disposition of one message event: rejected when its resource is not
/// the tracked conversation, rejected when self-authored, accepted otherwise.
pub open spec fn spec_message_disposition(
    ev: MessageEventView,
    ident: Seq<char>,
    self_name: Seq<char>,
) -> MessageDisposition {
    if ev.resource_name != ident {
        MessageDisposition::IgnoreWrongConversation
    } else if ev.author == self_name {
        MessageDisposition::IgnoreSelfAuthored
    } else {
        MessageDisposition::Accept
    }
}

/// A message event is accepted exactly when it targets the tracked
/// conversation and is not self-authored.
pub open spec fn spec_message_accepted(
    ev: MessageEventView,
    ident: Seq<char>,
    self_name: Seq<char>,
) -> bool {
    spec_message_disposition(ev, ident, self_name) == MessageDisposition::Accept
}

/// Decide the disposition of one message event. The self-authored check
/// prevents the session from reacting to its own replies, which would
/// otherwise loop forever.
pub fn classify_message(
    ev: &InboundMessageEvent,
    ident: &ConversationIdentity,
    self_name: &String,
) -> (d: MessageDisposition)
    ensures
        d == spec_message_disposition(ev@, ident@, self_name@),
{
    if !(ev.resource_name == ident.name) {
        MessageDisposition::IgnoreWrongConversation
    } else if ev.author == *self_name {
        MessageDisposition::IgnoreSelfAuthored
    } else {
        MessageDisposition::Accept
    }
}

/// A message event authored by the session's own identity is never accepted,
/// whatever its other fields hold.
pub proof fn lemma_self_authored_never_accepted(
    ev: MessageEventView,
    ident: Seq<char>,
    self_name: Seq<char>,
)
    requires
        ev.author == self_name,
    ensures
        !spec_message_accepted(ev, ident, self_name),
{
}

/// A message event whose resource name differs from the conversation key is
/// never accepted, whatever its author.
pub proof fn lemma_wrong_conversation_never_accepted(
    ev: MessageEventView,
    ident: Seq<char>,
    self_name: Seq<char>,
)
    requires
        ev.resource_name != ident,
    ensures
        spec_message_disposition(ev, ident, self_name)
            == MessageDisposition::IgnoreWrongConversation,
        !spec_message_accepted(ev, ident, self_name),
{
}

} // verus!
