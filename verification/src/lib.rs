//! Session driver for a one-to-one conversational bot on an event-sourced
//! messaging platform. The library holds the session's logic: deriving the
//! conversation key, classifying invite and message events, turning accepted
//! invites into the fixed command triple that resolves them, routing accepted
//! messages through a user-supplied responder, and assembling one poll cycle's
//! outbound work. Transport (channels, subscriptions, dispatch) stays with the
//! embedding program.

pub mod classify;
pub mod decode;
pub mod events;
pub mod identity;
pub mod reconcile;
pub mod route;
pub mod session;
