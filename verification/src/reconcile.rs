use vstd::prelude::*;

use crate::classify::{is_invite_relevant, spec_invite_relevant};
use crate::events::{CommandView, InboundInviteEvent, InviteEventView, OutboundCommand};
use crate::identity::ConversationIdentity;

verus! {

/// The commands owed for one invite event: when the invite targets the
/// tracked conversation, the fixed triple join-resource, accept-invite,
/// clear-notification, in that order; otherwise nothing. The join names the
/// inviting peer with its leading sigil and the conversation key; the accept
/// names the invite's unique id.
pub open spec fn spec_commands_for(ev: InviteEventView, ident: Seq<char>) -> Seq<CommandView> {
    if spec_invite_relevant(ev, ident) {
        seq![
            CommandView::JoinResource { ship: "~"@ + ev.resource_ship, name: ident },
            CommandView::AcceptInvite { uid: ev.uid },
            CommandView::ClearNotification,
        ]
    } else {
        Seq::empty()
    }
}

/// Turn one invite event into its ordered outbound commands. The three
/// commands are independent at the protocol level and are emitted
/// unconditionally as a group for a relevant invite; whether each later
/// dispatch succeeds cannot and does not affect what is emitted here.
pub fn reconcile_invite(ev: &InboundInviteEvent, ident: &ConversationIdentity) -> (r: Vec<
    OutboundCommand,
>)
    ensures
        r.deep_view() == spec_commands_for(ev@, ident@),
{
    let mut r: Vec<OutboundCommand> = Vec::new();
    if is_invite_relevant(ev, ident) {
        let peer: String = String::from_str("~").concat(ev.resource_ship.as_str());
        r.push(OutboundCommand::JoinResource { ship: peer, name: ident.name.clone() });
        r.push(OutboundCommand::AcceptInvite { uid: ev.uid.clone() });
        r.push(OutboundCommand::ClearNotification);
        proof {
            assert(r.deep_view() =~= spec_commands_for(ev@, ident@));
        }
    } else {
        proof {
            assert(r.deep_view() =~= spec_commands_for(ev@, ident@));
        }
    }
    r
}

/// For every invite event whose resource name differs from the conversation
/// key, no command at all is emitted.
pub proof fn lemma_irrelevant_invite_no_commands(ev: InviteEventView, ident: Seq<char>)
    requires
        ev.resource_name != ident,
    ensures
        spec_commands_for(ev, ident) == Seq::<CommandView>::empty(),
{
}

/// For every invite event whose resource name equals the conversation key,
/// exactly three commands are emitted: join-resource, then accept-invite,
/// then clear-notification.
pub proof fn lemma_relevant_invite_command_triple(ev: InviteEventView, ident: Seq<char>)
    requires
        ev.resource_name == ident,
    ensures
        spec_commands_for(ev, ident).len() == 3,
        spec_commands_for(ev, ident)[0] == (CommandView::JoinResource {
            ship: "~"@ + ev.resource_ship,
            name: ident,
        }),
        spec_commands_for(ev, ident)[1] == (CommandView::AcceptInvite { uid: ev.uid }),
        spec_commands_for(ev, ident)[2] == CommandView::ClearNotification,
{
}

} // verus!
