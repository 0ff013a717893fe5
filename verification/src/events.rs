use vstd::prelude::*;

verus! {

/// A decoded conversation-invite record: a peer has proposed adding the
/// local identity to a resource. Transient; consumed within one cycle.
#[derive(Debug, Clone, PartialEq, Eq)]
pub struct InboundInviteEvent {
    /// Platform-level name of the resource the invite points at.
    pub resource_name: String,
    /// Name of the inviting peer hosting the resource, as the record carries
    /// it (without any leading sigil).
    pub resource_ship: String,
    /// Unique id of the invite itself.
    pub uid: String,
}

/// The mathematical content of an [`InboundInviteEvent`].
pub struct InviteEventView {
    pub resource_name: Seq<char>,
    pub resource_ship: Seq<char>,
    pub uid: Seq<char>,
}

impl View for InboundInviteEvent {
    type V = InviteEventView;

    open spec fn view(&self) -> InviteEventView {
        InviteEventView {
            resource_name: self.resource_name@,
            resource_ship: self.resource_ship@,
            uid: self.uid@,
        }
    }
}

impl DeepView for InboundInviteEvent {
    type V = InviteEventView;

    open spec fn deep_view(&self) -> InviteEventView {
        self.view()
    }
}

/// A decoded new-message record: content was appended to a resource's
/// message graph. Transient; consumed within one cycle.
#[derive(Debug, Clone, PartialEq, Eq)]
pub struct InboundMessageEvent {
    /// Platform-level name of the resource the content was appended to.
    pub resource_name: String,
    /// Identity that authored the content.
    pub author: String,
    /// The appended content, carried as the json text of its content list.
    pub contents: String,
    /// Peer recorded on the message's originating resource; replies go to
    /// this identity, which is not necessarily the author.
    pub reply_to: String,
}

/// The mathematical content of an [`InboundMessageEvent`].
pub struct MessageEventView {
    pub resource_name: Seq<char>,
    pub author: Seq<char>,
    pub contents: Seq<char>,
    pub reply_to: Seq<char>,
}

impl View for InboundMessageEvent {
    type V = MessageEventView;

    open spec fn view(&self) -> MessageEventView {
        MessageEventView {
            resource_name: self.resource_name@,
            author: self.author@,
            contents: self.contents@,
            reply_to: self.reply_to@,
        }
    }
}

impl DeepView for InboundMessageEvent {
    type V = MessageEventView;

    open spec fn deep_view(&self) -> MessageEventView {
        self.view()
    }
}

/// The value handed to the user-supplied responder: one message of the
/// tracked conversation, with its author.
#[derive(Debug, Clone, PartialEq, Eq)]
pub struct AuthoredMessage {
    pub author: String,
    pub contents: String,
}

/// The mathematical content of an [`AuthoredMessage`].
pub struct AuthoredMessageView {
    pub author: Seq<char>,
    pub contents: Seq<char>,
}

impl View for AuthoredMessage {
    type V = AuthoredMessageView;

    open spec fn view(&self) -> AuthoredMessageView {
        AuthoredMessageView { author: self.author@, contents: self.contents@ }
    }
}

impl DeepView for AuthoredMessage {
    type V = AuthoredMessageView;

    open spec fn deep_view(&self) -> AuthoredMessageView {
        self.view()
    }
}

/// A reply owed to the conversation: produced when the responder returns a
/// present value, held until the cycle's flush phase, then dispatched.
#[derive(Debug, Clone, PartialEq, Eq)]
pub struct OutboundMessage {
    /// Destination peer identity, with its leading sigil.
    pub dest: String,
    /// The reply's payload text.
    pub payload: String,
}

/// The mathematical content of an [`OutboundMessage`].
pub struct OutboundMessageView {
    pub dest: Seq<char>,
    pub payload: Seq<char>,
}

impl View for OutboundMessage {
    type V = OutboundMessageView;

    open spec fn view(&self) -> OutboundMessageView {
        OutboundMessageView { dest: self.dest@, payload: self.payload@ }
    }
}

impl DeepView for OutboundMessage {
    type V = OutboundMessageView;

    open spec fn deep_view(&self) -> OutboundMessageView {
        self.view()
    }
}

/// A named action against the remote platform, produced while resolving an
/// accepted invite and dispatched in the cycle's flush phase.
#[derive(Debug, Clone, PartialEq, Eq)]
pub enum OutboundCommand {
    /// Subscribe the local identity to the resource hosted by the inviting
    /// peer, scoped to the conversation key.
    JoinResource { ship: String, name: String },
    /// Mark the invite, by its unique id, as accepted for the graph category.
    AcceptInvite { uid: String },
    /// Mark the invite's notification as seen.
    ClearNotification,
}

/// The mathematical content of an [`OutboundCommand`].
pub enum CommandView {
    JoinResource { ship: Seq<char>, name: Seq<char> },
    AcceptInvite { uid: Seq<char> },
    ClearNotification,
}

impl View for OutboundCommand {
    type V = CommandView;

    open spec fn view(&self) -> CommandView {
        match self {
            OutboundCommand::JoinResource { ship, name } => CommandView::JoinResource {
                ship: ship@,
                name: name@,
            },
            OutboundCommand::AcceptInvite { uid } => CommandView::AcceptInvite { uid: uid@ },
            OutboundCommand::ClearNotification => CommandView::ClearNotification,
        }
    }
}

impl DeepView for OutboundCommand {
    type V = CommandView;

    open spec fn deep_view(&self) -> CommandView {
        self.view()
    }
}

} // verus!
