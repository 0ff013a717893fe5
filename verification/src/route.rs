use vstd::prelude::*;

use crate::classify::{classify_message, spec_message_accepted, MessageDisposition};
use crate::events::{
    AuthoredMessage, AuthoredMessageView, InboundMessageEvent, MessageEventView, OutboundMessage,
    OutboundMessageView,
};
use crate::identity::ConversationIdentity;

verus! {

/// The calling contract of the user-supplied response function: one
/// synchronous method from an authored message to an optional reply payload.
/// It runs inline on the session's single processing thread, so it must not
/// block; nothing else is required of it, and nothing is assumed of its
/// result.
pub trait Responder {
    /// Decide the reply, if any, to one accepted message.
    fn respond(&self, message: AuthoredMessage) -> Option<String>;
}

/// The value owed to the responder for one accepted event: the event's
/// author and contents, verbatim.
pub open spec fn spec_authored_of(ev: MessageEventView) -> AuthoredMessageView {
    AuthoredMessageView { author: ev.author, contents: ev.contents }
}

/// Build the value handed to the responder for one accepted event: its
/// author and contents, verbatim and nothing else.
pub fn authored_of(ev: &InboundMessageEvent) -> (m: AuthoredMessage)
    ensures
        m@ == spec_authored_of(ev@),
{
    AuthoredMessage { author: ev.author.clone(), contents: ev.contents.clone() }
}

/// The outbound message owed for one accepted event and one responder
/// result: none when the responder returned none, else a reply addressed to
/// the event's reply-to peer (with its leading sigil) carrying the returned
/// payload.
pub open spec fn spec_reply_for(ev: MessageEventView, response: Option<Seq<char>>) -> Option<
    OutboundMessageView,
> {
    match response {
        Option::Some(payload) => Option::Some(
            OutboundMessageView { dest: "~"@ + ev.reply_to, payload },
        ),
        Option::None => Option::None,
    }
}

/// A reply is owed exactly when the responder returned a present value.
pub proof fn lemma_reply_iff_response(ev: MessageEventView, response: Option<Seq<char>>)
    ensures
        spec_reply_for(ev, response) is Some <==> response is Some,
{
}

/// Pair a present responder result with the event's reply destination.
pub fn route_reply(ev: &InboundMessageEvent, response: Option<String>) -> (r: Option<
    OutboundMessage,
>)
    ensures
        r.deep_view() == spec_reply_for(ev@, response.deep_view()),
{
    match response {
        Option::Some(payload) => {
            let dest: String = String::from_str("~").concat(ev.reply_to.as_str());
            Option::Some(OutboundMessage { dest, payload })
        },
        Option::None => Option::None,
    }
}

/// Route one message event: when the classifier accepts it, hand the
/// responder `authored_of` the event — its author and contents, verbatim —
/// once, and turn the responder's result into at most one outbound reply;
/// otherwise do nothing, without touching the responder.
pub fn route_message<R: Responder>(
    ev: &InboundMessageEvent,
    ident: &ConversationIdentity,
    self_name: &String,
    responder: &R,
) -> (r: Option<OutboundMessage>)
    ensures
        !spec_message_accepted(ev@, ident@, self_name@) ==> r is None,
        spec_message_accepted(ev@, ident@, self_name@) ==> exists|response: Option<Seq<char>>|
            r.deep_view() == spec_reply_for(ev@, response),
{
    match classify_message(ev, ident, self_name) {
        MessageDisposition::Accept => {
            let authored = authored_of(ev);
            let response = responder.respond(authored);
            let ghost response_view = response.deep_view();
            let r = route_reply(ev, response);
            proof {
                assert(r.deep_view() == spec_reply_for(ev@, response_view));
            }
            r
        },
        _ => Option::None,
    }
}

} // verus!
