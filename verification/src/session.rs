use vstd::prelude::*;

use crate::classify::{classify_message, spec_message_accepted, MessageDisposition};
use crate::decode::{
    decode_invite_record, decode_message_record, spec_decode_invite, spec_decode_message,
};
use crate::events::{
    CommandView, MessageEventView, OutboundCommand, OutboundMessage, OutboundMessageView,
};
use crate::identity::ConversationIdentity;
use crate::reconcile::{reconcile_invite, spec_commands_for};
use crate::route::{authored_of, route_reply, spec_reply_for, Responder};

verus! {

/// The session's two fixed identities: its own name and the conversation key
/// derived from it. Built once in the initializing phase; immutable for the
/// session's lifetime.
pub struct SessionConfig {
    pub self_name: String,
    pub conversation: ConversationIdentity,
}

impl SessionConfig {
    /// The conversation key is exactly the one derived from the session's
    /// own name.
    pub open spec fn wf(&self) -> bool {
        self.conversation@ == ConversationIdentity::spec_derive(self.self_name@)
    }

    /// Compute the per-session identities from the local identity's name.
    pub fn new(self_name: String) -> (r: SessionConfig)
        ensures
            r.wf(),
            r.self_name@ == self_name@,
    {
        let conversation = ConversationIdentity::derive(self_name.as_str());
        SessionConfig { self_name, conversation }
    }
}

/// The commands owed for one raw invite record: none when it does not decode
/// to an invite record, else the commands owed for the decoded record.
pub open spec fn spec_commands_for_raw(raw: Seq<char>, ident: Seq<char>) -> Seq<CommandView> {
    match spec_decode_invite(raw) {
        Option::Some(ev) => spec_commands_for(ev, ident),
        Option::None => Seq::empty(),
    }
}

/// The commands owed for one cycle's drained invite records: the commands
/// owed for each record in drained order, concatenated. A record that does
/// not decode contributes nothing and does not disturb the rest.
pub open spec fn spec_invite_batch(raws: Seq<Seq<char>>, ident: Seq<char>) -> Seq<CommandView>
    decreases raws.len(),
{
    if raws.len() == 0 {
        Seq::empty()
    } else {
        spec_invite_batch(raws.drop_last(), ident) + spec_commands_for_raw(raws.last(), ident)
    }
}

/// Drain one cycle's invite records: decode each, drop the irrelevant and
/// the undecodable, and accumulate the command triple of every relevant
/// invite, grouped per invite, invites in drained order.
pub fn process_invites(raws: &Vec<String>, ident: &ConversationIdentity) -> (out: Vec<
    OutboundCommand,
>)
    ensures
        out.deep_view() == spec_invite_batch(raws.deep_view(), ident@),
{
    let mut out: Vec<OutboundCommand> = Vec::new();
    let mut i: usize = 0;
    while i < raws.len()
        invariant
            i <= raws.len(),
            out.deep_view() == spec_invite_batch(raws.deep_view().take(i as int), ident@),
        decreases raws.len() - i,
    {
        let ghost prefix = raws.deep_view().take(i as int);
        let ghost next_prefix = raws.deep_view().take(i + 1 as int);
        match decode_invite_record(raws[i].as_str()) {
            Option::Some(ev) => {
                let mut cmds = reconcile_invite(&ev, ident);
                proof {
                    assert(out.deep_view() + cmds.deep_view() == spec_invite_batch(
                        prefix,
                        ident@,
                    ) + spec_commands_for_raw(raws.deep_view()[i as int], ident@));
                }
                out.append(&mut cmds);
                proof {
                    assert(out.deep_view() =~= spec_invite_batch(prefix, ident@)
                        + spec_commands_for_raw(raws.deep_view()[i as int], ident@));
                }
            },
            Option::None => {
                proof {
                    assert(out.deep_view() =~= spec_invite_batch(prefix, ident@)
                        + spec_commands_for_raw(raws.deep_view()[i as int], ident@));
                }
            },
        }
        proof {
            assert(next_prefix.drop_last() =~= prefix);
            assert(next_prefix.last() == raws.deep_view()[i as int]);
        }
        i += 1;
    }
    proof {
        assert(raws.deep_view().take(raws.len() as int) =~= raws.deep_view());
    }
    out
}

/// For a whole drained batch: when no record decodes to an invite for the
/// tracked conversation, no command at all is emitted.
pub proof fn lemma_no_relevant_invite_no_commands(raws: Seq<Seq<char>>, ident: Seq<char>)
    requires
        forall|i: int|
            0 <= i < raws.len() ==> match #[trigger] spec_decode_invite(raws[i]) {
                Option::Some(ev) => ev.resource_name != ident,
                Option::None => true,
            },
    ensures
        spec_invite_batch(raws, ident) == Seq::<CommandView>::empty(),
    decreases raws.len(),
{
    if raws.len() > 0 {
        assert(forall|i: int|
            0 <= i < raws.drop_last().len() ==> raws.drop_last()[i] == raws[i]);
        lemma_no_relevant_invite_no_commands(raws.drop_last(), ident);
        assert(spec_invite_batch(raws, ident) =~= Seq::<CommandView>::empty());
    }
}

/// One cycle's qualifying message events: those drained records that decode
/// and that the classifier accepts, in drained order.
pub open spec fn spec_qualifying(
    raws: Seq<Seq<char>>,
    ident: Seq<char>,
    self_name: Seq<char>,
) -> Seq<MessageEventView>
    decreases raws.len(),
{
    if raws.len() == 0 {
        Seq::empty()
    } else {
        let rest = spec_qualifying(raws.drop_last(), ident, self_name);
        match spec_decode_message(raws.last()) {
            Option::Some(ev) => if spec_message_accepted(ev, ident, self_name) {
                rest.push(ev)
            } else {
                rest
            },
            Option::None => rest,
        }
    }
}

/// The replies owed for a batch of qualifying events, given one responder
/// result per event: for each event with a present result, in order, the
/// reply pairing that result with the event's reply-to peer.
pub open spec fn spec_replies(
    evs: Seq<MessageEventView>,
    responses: Seq<Option<Seq<char>>>,
) -> Seq<OutboundMessageView>
    decreases evs.len(),
{
    if evs.len() == 0 || responses.len() != evs.len() {
        Seq::empty()
    } else {
        spec_replies(evs.drop_last(), responses.drop_last()) + match spec_reply_for(
            evs.last(),
            responses.last(),
        ) {
            Option::Some(reply) => seq![reply],
            Option::None => Seq::empty(),
        }
    }
}

/// For a whole drained batch: when every record either fails to decode, or
/// is self-authored, or names another resource, no event qualifies, so no
/// reply is owed whatever the responder would have answered.
pub proof fn lemma_rejected_batch_no_replies(
    raws: Seq<Seq<char>>,
    ident: Seq<char>,
    self_name: Seq<char>,
    responses: Seq<Option<Seq<char>>>,
)
    requires
        forall|i: int|
            0 <= i < raws.len() ==> match #[trigger] spec_decode_message(raws[i]) {
                Option::Some(ev) => !spec_message_accepted(ev, ident, self_name),
                Option::None => true,
            },
    ensures
        spec_qualifying(raws, ident, self_name) == Seq::<MessageEventView>::empty(),
        spec_replies(spec_qualifying(raws, ident, self_name), responses) == Seq::<
            OutboundMessageView,
        >::empty(),
    decreases raws.len(),
{
    if raws.len() > 0 {
        assert(forall|i: int|
            0 <= i < raws.drop_last().len() ==> raws.drop_last()[i] == raws[i]);
        lemma_rejected_batch_no_replies(raws.drop_last(), ident, self_name, responses);
    }
}

/// At most one reply is owed per qualifying event, however the responder
/// answers.
pub proof fn lemma_at_most_one_reply_per_event(
    evs: Seq<MessageEventView>,
    responses: Seq<Option<Seq<char>>>,
)
    ensures
        spec_replies(evs, responses).len() <= evs.len(),
    decreases evs.len(),
{
    if evs.len() > 0 && responses.len() == evs.len() {
        lemma_at_most_one_reply_per_event(evs.drop_last(), responses.drop_last());
    }
}

/// Replies keep the drained order: the reply owed for an event handled after
/// a batch stands after every reply owed for the batch, and an absent
/// responder result adds nothing.
pub proof fn lemma_replies_ordered(
    evs: Seq<MessageEventView>,
    responses: Seq<Option<Seq<char>>>,
    ev: MessageEventView,
    response: Option<Seq<char>>,
)
    requires
        evs.len() == responses.len(),
    ensures
        spec_replies(evs.push(ev), responses.push(response)) == spec_replies(evs, responses)
            + match spec_reply_for(ev, response) {
            Option::Some(reply) => seq![reply],
            Option::None => Seq::<OutboundMessageView>::empty(),
        },
{
    assert(evs.push(ev).drop_last() =~= evs);
    assert(responses.push(response).drop_last() =~= responses);
}

/// Drain one cycle's message records: decode each, drop the undecodable,
/// classify the rest, hand the responder `authored_of` each accepted event
/// — its author and contents, verbatim — exactly once, in drained order,
/// and accumulate one outbound reply per present responder result. The
/// returned replies are the replies owed for the qualifying events under
/// the responder results actually seen.
pub fn process_messages<R: Responder>(
    raws: &Vec<String>,
    config: &SessionConfig,
    responder: &R,
) -> (out: Vec<OutboundMessage>)
    ensures
        exists|responses: Seq<Option<Seq<char>>>|
            responses.len() == spec_qualifying(
                raws.deep_view(),
                config.conversation@,
                config.self_name@,
            ).len() && out.deep_view() == spec_replies(
                spec_qualifying(raws.deep_view(), config.conversation@, config.self_name@),
                responses,
            ),
{
    let ghost ident = config.conversation@;
    let ghost self_name = config.self_name@;
    let mut out: Vec<OutboundMessage> = Vec::new();
    let ghost mut responses: Seq<Option<Seq<char>>> = Seq::empty();
    let mut i: usize = 0;
    while i < raws.len()
        invariant
            i <= raws.len(),
            ident == config.conversation@,
            self_name == config.self_name@,
            responses.len() == spec_qualifying(
                raws.deep_view().take(i as int),
                ident,
                self_name,
            ).len(),
            out.deep_view() == spec_replies(
                spec_qualifying(raws.deep_view().take(i as int), ident, self_name),
                responses,
            ),
        decreases raws.len() - i,
    {
        let ghost prefix = raws.deep_view().take(i as int);
        let ghost next_prefix = raws.deep_view().take(i + 1 as int);
        let ghost quals = spec_qualifying(prefix, ident, self_name);
        match decode_message_record(raws[i].as_str()) {
            Option::Some(ev) => {
                match classify_message(&ev, &config.conversation, &config.self_name) {
                    MessageDisposition::Accept => {
                        let authored = authored_of(&ev);
                        let response = responder.respond(authored);
                        let ghost response_view = response.deep_view();
                        match route_reply(&ev, response) {
                            Option::Some(reply) => {
                                out.push(reply);
                            },
                            Option::None => {},
                        }
                        proof {
                            lemma_replies_ordered(quals, responses, ev@, response_view);
                            responses = responses.push(response_view);
                            assert(out.deep_view() =~= spec_replies(
                                quals.push(ev@),
                                responses,
                            ));
                        }
                    },
                    _ => {},
                }
            },
            Option::None => {},
        }
        proof {
            assert(next_prefix.drop_last() =~= prefix);
            assert(next_prefix.last() == raws.deep_view()[i as int]);
        }
        i += 1;
    }
    proof {
        assert(raws.deep_view().take(raws.len() as int) =~= raws.deep_view());
    }
    out
}

/// One cycle's accumulated outbound work: the invite commands, then the
/// replies, each in the order produced. The flush phase dispatches the
/// commands first and the replies after, in these orders.
pub struct CycleOutput {
    pub commands: Vec<OutboundCommand>,
    pub messages: Vec<OutboundMessage>,
}

/// One polling phase's computation, after the drained records are in hand:
/// reconcile every drained invite record, then route every drained message
/// record. Nothing is dispatched here; the caller flushes the returned work
/// strictly afterwards, so that computing and acting never interleave.
pub fn run_cycle<R: Responder>(
    invite_raws: &Vec<String>,
    message_raws: &Vec<String>,
    config: &SessionConfig,
    responder: &R,
) -> (out: CycleOutput)
    ensures
        out.commands.deep_view() == spec_invite_batch(
            invite_raws.deep_view(),
            config.conversation@,
        ),
        exists|responses: Seq<Option<Seq<char>>>|
            responses.len() == spec_qualifying(
                message_raws.deep_view(),
                config.conversation@,
                config.self_name@,
            ).len() && out.messages.deep_view() == spec_replies(
                spec_qualifying(message_raws.deep_view(), config.conversation@, config.self_name@),
                responses,
            ),
{
    let commands = process_invites(invite_raws, &config.conversation);
    let messages = process_messages(message_raws, config, responder);
    CycleOutput { commands, messages }
}

} // verus!
