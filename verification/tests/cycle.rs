use std::cell::{Cell, RefCell};

use urbit_chatbot_framework::events::{AuthoredMessage, OutboundCommand};
use urbit_chatbot_framework::route::Responder;
use urbit_chatbot_framework::session::{
    process_invites, process_messages, run_cycle, SessionConfig,
};

fn invite_json(name: &str, ship: &str, uid: &str) -> String {
    format!(
        r#"{{"invite-update":{{"invite":{{"invite":{{"resource":{{"name":"{}","ship":"{}"}},"ship":"{}"}},"uid":"{}"}}}}}}"#,
        name, ship, ship, uid
    )
}

fn graph_json(name: &str, ship: &str, author: &str, text: &str) -> String {
    format!(
        r#"{{"graph-update":{{"add-nodes":{{"resource":{{"name":"{}","ship":"{}"}},"nodes":{{"/170":{{"post":{{"author":"{}","index":"/170","time-sent":1,"contents":[{{"text":"{}"}}],"hash":null,"signatures":[]}},"children":null}}}}}}}}}}"#,
        name, ship, author, text
    )
}

struct FixedResponder<'a> {
    calls: &'a Cell<u32>,
    reply: Option<String>,
}

impl Responder for FixedResponder<'_> {
    fn respond(&self, _message: AuthoredMessage) -> Option<String> {
        self.calls.set(self.calls.get() + 1);
        self.reply.clone()
    }
}

struct EchoResponder;

impl Responder for EchoResponder {
    fn respond(&self, message: AuthoredMessage) -> Option<String> {
        Some(message.author)
    }
}

struct RecordingResponder<'a> {
    seen: &'a RefCell<Vec<AuthoredMessage>>,
}

impl Responder for RecordingResponder<'_> {
    fn respond(&self, message: AuthoredMessage) -> Option<String> {
        self.seen.borrow_mut().push(message);
        None
    }
}

#[test]
fn invite_for_conversation_yields_command_triple() {
    let config = SessionConfig::new("zod".to_string());
    let raws = vec![invite_json("dm--zod", "bus", "0v4.u1")];
    let cmds = process_invites(&raws, &config.conversation);
    assert_eq!(
        cmds,
        vec![
            OutboundCommand::JoinResource {
                ship: "~bus".to_string(),
                name: "dm--zod".to_string(),
            },
            OutboundCommand::AcceptInvite { uid: "0v4.u1".to_string() },
            OutboundCommand::ClearNotification,
        ]
    );
}

#[test]
fn invite_for_other_resource_yields_nothing() {
    let config = SessionConfig::new("zod".to_string());
    let raws = vec![invite_json("dm--other", "bus", "0v4.u1")];
    assert!(process_invites(&raws, &config.conversation).is_empty());
}

#[test]
fn invite_without_resource_name_yields_nothing() {
    let config = SessionConfig::new("zod".to_string());
    let raws = vec![r#"{"invite-update":{"invite":{"uid":"0v4.u1"}}}"#.to_string()];
    assert!(process_invites(&raws, &config.conversation).is_empty());
}

#[test]
fn malformed_invite_is_skipped_rest_processed() {
    let config = SessionConfig::new("zod".to_string());
    let raws = vec![
        "{not json at all".to_string(),
        invite_json("dm--zod", "bus", "0v4.u1"),
    ];
    let cmds = process_invites(&raws, &config.conversation);
    assert_eq!(cmds.len(), 3);
    assert_eq!(
        cmds[0],
        OutboundCommand::JoinResource { ship: "~bus".to_string(), name: "dm--zod".to_string() }
    );
}

#[test]
fn peer_message_gets_one_reply() {
    let config = SessionConfig::new("zod".to_string());
    let calls = Cell::new(0);
    let responder =
        FixedResponder { calls: &calls, reply: Some("Calm Computing ~".to_string()) };
    let raws = vec![graph_json("dm--zod", "bus", "bus", "hi")];
    let out = process_messages(&raws, &config, &responder);
    assert_eq!(calls.get(), 1);
    assert_eq!(out.len(), 1);
    assert_eq!(out[0].dest, "~bus");
    assert_eq!(out[0].payload, "Calm Computing ~");
}

#[test]
fn absent_reply_sends_nothing() {
    let config = SessionConfig::new("zod".to_string());
    let calls = Cell::new(0);
    let responder = FixedResponder { calls: &calls, reply: None };
    let raws = vec![graph_json("dm--zod", "bus", "bus", "hi")];
    let out = process_messages(&raws, &config, &responder);
    assert_eq!(calls.get(), 1);
    assert!(out.is_empty());
}

#[test]
fn self_authored_message_never_reaches_responder() {
    let config = SessionConfig::new("zod".to_string());
    let calls = Cell::new(0);
    let responder =
        FixedResponder { calls: &calls, reply: Some("Calm Computing ~".to_string()) };
    let raws = vec![graph_json("dm--zod", "bus", "zod", "hi")];
    let out = process_messages(&raws, &config, &responder);
    assert_eq!(calls.get(), 0);
    assert!(out.is_empty());
}

#[test]
fn foreign_resource_message_never_reaches_responder() {
    let config = SessionConfig::new("zod".to_string());
    let calls = Cell::new(0);
    let responder =
        FixedResponder { calls: &calls, reply: Some("Calm Computing ~".to_string()) };
    let raws = vec![graph_json("dm--other", "bus", "bus", "hi")];
    let out = process_messages(&raws, &config, &responder);
    assert_eq!(calls.get(), 0);
    assert!(out.is_empty());
}

#[test]
fn responder_sees_author_and_rendered_contents() {
    let config = SessionConfig::new("zod".to_string());
    let seen = RefCell::new(Vec::new());
    let responder = RecordingResponder { seen: &seen };
    let raws = vec![graph_json("dm--zod", "bus", "bus", "hi")];
    process_messages(&raws, &config, &responder);
    let seen = seen.borrow();
    assert_eq!(seen.len(), 1);
    assert_eq!(seen[0].author, "bus");
    assert_eq!(seen[0].contents, r#"[{"text":"hi"}]"#);
}

#[test]
fn numeric_content_item_does_not_disturb_the_cycle() {
    let config = SessionConfig::new("zod".to_string());
    let raws = vec![
        r#"{"graph-update":{"add-nodes":{"resource":{"name":"dm--zod","ship":"bus"},"nodes":{"/170":{"post":{"author":"bus","index":"/170","time-sent":1,"contents":[{"text":5}],"hash":null,"signatures":[]},"children":null}}}}}"#.to_string(),
    ];
    let out = process_messages(&raws, &config, &EchoResponder);
    assert_eq!(out.len(), 1);
    assert_eq!(out[0].dest, "~bus");
    assert_eq!(out[0].payload, "bus");
}

#[test]
fn replies_keep_drained_order() {
    let config = SessionConfig::new("zod".to_string());
    let raws = vec![
        graph_json("dm--zod", "bus", "first", "a"),
        graph_json("dm--zod", "bus", "second", "b"),
        graph_json("dm--zod", "bus", "third", "c"),
    ];
    let out = process_messages(&raws, &config, &EchoResponder);
    let payloads: Vec<&str> = out.iter().map(|m| m.payload.as_str()).collect();
    assert_eq!(payloads, vec!["first", "second", "third"]);
}

#[test]
fn malformed_message_is_skipped_rest_processed() {
    let config = SessionConfig::new("zod".to_string());
    let raws = vec![
        "{not json at all".to_string(),
        r#"{"graph-update":{"add-nodes":{"resource":{"name":"dm--zod","ship":"bus"}}}}"#
            .to_string(),
        graph_json("dm--zod", "bus", "bus", "hi"),
    ];
    let out = process_messages(&raws, &config, &EchoResponder);
    assert_eq!(out.len(), 1);
    assert_eq!(out[0].payload, "bus");
}

#[test]
fn empty_batches_yield_empty_cycle() {
    let config = SessionConfig::new("zod".to_string());
    let calls = Cell::new(0);
    let responder =
        FixedResponder { calls: &calls, reply: Some("Calm Computing ~".to_string()) };
    let out = run_cycle(&Vec::new(), &Vec::new(), &config, &responder);
    assert!(out.commands.is_empty());
    assert!(out.messages.is_empty());
    assert_eq!(calls.get(), 0);
}

#[test]
fn one_cycle_accumulates_commands_then_replies() {
    let config = SessionConfig::new("zod".to_string());
    let calls = Cell::new(0);
    let responder =
        FixedResponder { calls: &calls, reply: Some("Calm Computing ~".to_string()) };
    let invites = vec![
        invite_json("dm--zod", "bus", "0v4.u1"),
        invite_json("dm--zod", "dev", "0v4.u2"),
    ];
    let messages = vec![graph_json("dm--zod", "bus", "bus", "hi")];
    let out = run_cycle(&invites, &messages, &config, &responder);
    assert_eq!(out.commands.len(), 6);
    assert_eq!(
        out.commands[3],
        OutboundCommand::JoinResource { ship: "~dev".to_string(), name: "dm--zod".to_string() }
    );
    assert_eq!(
        out.commands[4],
        OutboundCommand::AcceptInvite { uid: "0v4.u2".to_string() }
    );
    assert_eq!(out.messages.len(), 1);
    assert_eq!(out.messages[0].dest, "~bus");
    assert_eq!(out.messages[0].payload, "Calm Computing ~");
}
