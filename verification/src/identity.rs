use vstd::prelude::*;

verus! {

/// The stable key naming the one direct-message conversation a session
/// tracks: a fixed prefix followed by the local identity's name. Derived once
/// at session start and immutable thereafter; every invite and message event
/// is filtered against it by exact equality.
pub struct ConversationIdentity {
    pub name: String,
}

impl View for ConversationIdentity {
    type V = Seq<char>;

    open spec fn view(&self) -> Seq<char> {
        self.name@
    }
}

impl ConversationIdentity {
    /// The derivation rule: the fixed prefix `dm--` followed by the local name.
    pub open spec fn spec_derive(local_name: Seq<char>) -> Seq<char> {
        "dm--"@ + local_name
    }

    /// Derive the conversation key for a local identity. Pure; no failure
    /// modes and no normalization beyond the fixed rule.
    pub fn derive(local_name: &str) -> (r: ConversationIdentity)
        ensures
            r@ == Self::spec_derive(local_name@),
    {
        let prefix: String = String::from_str("dm--");
        ConversationIdentity { name: prefix.concat(local_name) }
    }
}

} // verus!
