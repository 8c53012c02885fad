use acp_p2p::answerer::{Answerer, P2P_ANSWER, RUST_FIBONACCI_ANSWER};
use acp_p2p::node::{handle_message, handle_message_at, parse_capabilities, parse_command, Command, Reaction};
use acp_p2p::protocol::{Confidence, AcpDirection, AcpMessage, AcpPayload, AgentInfo, Timestamp};
use acp_p2p::state::{AgentState, PendingQuestion};

fn c(x: f32) -> Confidence {
    Confidence { bits: x.to_bits() }
}


fn me(caps: &[&str]) -> AgentInfo {
    AgentInfo {
        peer_id: "peer-me".to_string(),
        alias: "alice".to_string(),
        capabilities: caps.iter().map(|c| c.to_string()).collect(),
    }
}

fn ts(secs: i64) -> Timestamp {
    Timestamp { secs, nanos: 7 }
}

fn question(id: &str, from: &str, content: &str, caps: &[&str]) -> AcpMessage {
    AcpMessage::Question {
        question_id: id.to_string(),
        from_peer: from.to_string(),
        from_alias: "bob".to_string(),
        content: content.to_string(),
        required_caps: caps.iter().map(|c| c.to_string()).collect(),
        timestamp: ts(1),
    }
}

fn answer_msg(id: &str, from: &str, content: &str) -> AcpMessage {
    AcpMessage::Answer {
        question_id: id.to_string(),
        from_peer: from.to_string(),
        from_alias: "carol".to_string(),
        content: content.to_string(),
        confidence: c(0.75),
        timestamp: ts(2),
    }
}

#[test]
fn announce_and_goodbye_update_peers() {
    let mut s = AgentState::new(me(&[]));
    let a = Answerer::new("alice".to_string());
    let ann = AcpMessage::Announce {
        agent: AgentInfo { peer_id: "peer-b".to_string(), alias: "bob".to_string(), capabilities: vec![] },
        timestamp: ts(0),
    };
    assert!(matches!(handle_message_at(ann, &mut s, &a, ts(3)), Reaction::PeerAnnounced));
    assert_eq!(s.peer_count(), 1);
    let own = AcpMessage::Announce { agent: me(&[]), timestamp: ts(0) };
    assert!(matches!(handle_message_at(own, &mut s, &a, ts(3)), Reaction::PeerAnnounced));
    assert_eq!(s.peer_count(), 1);
    let bye = AcpMessage::Goodbye { peer_id: "peer-b".to_string(), alias: "bob".to_string() };
    assert!(matches!(handle_message_at(bye, &mut s, &a, ts(4)), Reaction::PeerLeft));
    assert_eq!(s.peer_count(), 0);
}

#[test]
fn answers_known_question_once() {
    let mut s = AgentState::new(me(&["rust"]));
    let a = Answerer::new("alice".to_string());
    let q = question("q-12345678", "peer-b", "Fibonacci in Rust please", &[]);
    match handle_message_at(q.clone(), &mut s, &a, ts(5)) {
        Reaction::Answered { question_id, from_alias, content, reply } => {
            assert_eq!(question_id, "q-12345678");
            assert_eq!(from_alias, "bob");
            assert_eq!(content, "Fibonacci in Rust please");
            match reply {
                AcpMessage::Answer { question_id, from_peer, from_alias, content, confidence, timestamp } => {
                    assert_eq!(question_id, "q-12345678");
                    assert_eq!(from_peer, "peer-me");
                    assert_eq!(from_alias, "alice");
                    assert_eq!(content, RUST_FIBONACCI_ANSWER);
                    assert_eq!(confidence, c(0.97));
                    assert_eq!(timestamp, ts(5));
                }
                _ => panic!("expected an answer"),
            }
        }
        other => panic!("expected answered, got {other:?}"),
    }
    assert_eq!(s.seen_questions.get("q-12345678").unwrap(), "Fibonacci in Rust please");
    assert!(matches!(handle_message_at(q, &mut s, &a, ts(6)), Reaction::RepeatedQuestion));
}

#[test]
fn own_question_is_ignored_and_not_recorded() {
    let mut s = AgentState::new(me(&[]));
    let a = Answerer::new("alice".to_string());
    let q = question("q1", "peer-me", "what is p2p", &[]);
    assert!(matches!(handle_message_at(q, &mut s, &a, ts(1)), Reaction::OwnQuestion));
    assert!(s.seen_questions.keys().is_empty());
}

#[test]
fn question_outside_capabilities_is_recorded_but_skipped() {
    let mut s = AgentState::new(me(&["rust"]));
    let a = Answerer::new("alice".to_string());
    let q = question("q2", "peer-b", "what is p2p", &["python"]);
    match handle_message_at(q, &mut s, &a, ts(1)) {
        Reaction::NotOurCapabilities { question_id, .. } => assert_eq!(question_id, "q2"),
        other => panic!("unexpected {other:?}"),
    }
    assert!(s.seen_questions.contains_key("q2"));
}

#[test]
fn capability_match_allows_answer() {
    let mut s = AgentState::new(me(&["rust", "net"]));
    let a = Answerer::new("alice".to_string());
    let q = question("q3", "peer-b", "what is p2p", &["go", "net"]);
    match handle_message_at(q, &mut s, &a, ts(1)) {
        Reaction::Answered { reply: AcpMessage::Answer { content, confidence, .. }, .. } => {
            assert_eq!(content, P2P_ANSWER);
            assert_eq!(confidence, c(0.89));
        }
        other => panic!("unexpected {other:?}"),
    }
}

#[test]
fn unknown_question_gets_no_answer_but_is_seen() {
    let mut s = AgentState::new(me(&[]));
    let a = Answerer::new("alice".to_string());
    let q = question("q4", "peer-b", "weather?", &[]);
    match handle_message_at(q, &mut s, &a, ts(1)) {
        Reaction::NoAnswer { content, .. } => assert_eq!(content, "weather?"),
        other => panic!("unexpected {other:?}"),
    }
    assert!(s.seen_questions.contains_key("q4"));
}

#[test]
fn answers_are_kept_for_pending_questions_only() {
    let mut s = AgentState::new(me(&[]));
    let a = Answerer::new("alice".to_string());
    s.pending_questions.insert(
        "q5".to_string(),
        PendingQuestion { question_id: "q5".to_string(), content: "tcp?".to_string(), asked_at: ts(0), answers: vec![] },
    );
    assert!(matches!(handle_message_at(answer_msg("q5", "peer-c", "yes"), &mut s, &a, ts(9)), Reaction::AnswerReceived));
    assert!(matches!(handle_message_at(answer_msg("q5", "peer-me", "mine"), &mut s, &a, ts(9)), Reaction::OwnAnswer));
    assert!(matches!(handle_message_at(answer_msg("zz", "peer-c", "stray"), &mut s, &a, ts(9)), Reaction::AnswerReceived));
    let pq = s.pending_questions.get("q5").unwrap();
    assert_eq!(pq.answers.len(), 1);
    assert_eq!(pq.answers[0].content, "yes");
    assert_eq!(pq.answers[0].from_peer, "peer-c");
    assert_eq!(pq.answers[0].confidence, c(0.75));
    assert_eq!(pq.answers[0].received_at, ts(9));
    assert!(s.pending_questions.get("zz").is_none());
}

#[test]
fn jsonrpc_payload_is_not_acted_on() {
    let mut s = AgentState::new(me(&[]));
    let a = Answerer::new("alice".to_string());
    let m = AcpMessage::AcpJsonRpc {
        message_id: "m1".to_string(),
        from_peer: "peer-a".to_string(),
        from_alias: "x".to_string(),
        direction: AcpDirection::AgentToClient,
        payload: AcpPayload { method: "session/prompt".to_string(), params_json: "{}".to_string() },
        timestamp: ts(0),
    };
    assert!(matches!(handle_message_at(m, &mut s, &a, ts(1)), Reaction::Unhandled));
}

#[test]
fn handle_message_stamps_reply_with_current_time() {
    let mut s = AgentState::new(me(&[]));
    let a = Answerer::new("alice".to_string());
    match handle_message(question("q6", "peer-b", "TCP or UDP?", &[]), &mut s, &a) {
        Reaction::Answered { reply: AcpMessage::Answer { timestamp, confidence, .. }, .. } => {
            assert_eq!(confidence, c(0.92));
            assert!(timestamp.secs > 1_600_000_000);
            assert!(timestamp.nanos < 1_000_000_000);
        }
        other => panic!("unexpected {other:?}"),
    }
}

#[test]
fn parse_commands() {
    assert_eq!(parse_command("   "), Command::Empty);
    assert_eq!(parse_command(" peers "), Command::Peers);
    assert_eq!(parse_command("quit"), Command::Quit);
    assert_eq!(parse_command("exit\n"), Command::Quit);
    assert_eq!(
        parse_command("  ask what is p2p  "),
        Command::Ask { question: "what is p2p".to_string(), required_caps: vec![] }
    );
    assert_eq!(parse_command("ask"), Command::Unknown);
    assert_eq!(parse_command("peer"), Command::Unknown);
    assert_eq!(parse_command("ASK x"), Command::Unknown);
}

#[test]
fn parse_capability_routed_questions() {
    let routed = Command::Ask {
        question: "fibonacci please".to_string(),
        required_caps: vec!["rust".to_string(), "math".to_string()],
    };
    assert_eq!(parse_command("ask --caps rust,math fibonacci please"), routed);
    assert_eq!(parse_command("ask @rust,math fibonacci please"), routed);
    assert_eq!(parse_command("ask @rust"), Command::Unknown);
    assert_eq!(parse_command("ask --caps rust"), Command::Unknown);
}

#[test]
fn parse_acp_and_dial() {
    assert_eq!(
        parse_command("acp session/prompt {\"x\": 1}"),
        Command::Acp { method: "session/prompt".to_string(), params_json: "{\"x\": 1}".to_string() }
    );
    assert_eq!(parse_command("acp session/prompt"), Command::Unknown);
    assert_eq!(
        parse_command("dial /ip4/127.0.0.1/tcp/4001"),
        Command::Dial("/ip4/127.0.0.1/tcp/4001".to_string())
    );
}

#[test]
fn parse_capability_lists() {
    assert_eq!(parse_capabilities(""), Vec::<String>::new());
    assert_eq!(parse_capabilities("rust"), vec!["rust".to_string()]);
    assert_eq!(parse_capabilities(" rust , math,python "), vec!["rust", "math", "python"]);
    assert_eq!(parse_capabilities("a,"), vec!["a", ""]);
}

#[test]
fn ask_with_records_pending_question() {
    let mut s = AgentState::new(me(&[]));
    let m = s.ask_with("what is p2p", vec!["net".to_string()], "id-1".to_string(), ts(42));
    match m {
        AcpMessage::Question { question_id, from_peer, from_alias, content, required_caps, timestamp } => {
            assert_eq!(question_id, "id-1");
            assert_eq!(from_peer, "peer-me");
            assert_eq!(from_alias, "alice");
            assert_eq!(content, "what is p2p");
            assert_eq!(required_caps, vec!["net".to_string()]);
            assert_eq!(timestamp, ts(42));
        }
        _ => panic!("expected a question"),
    }
    let pq = s.pending_questions.get("id-1").unwrap();
    assert_eq!(pq.content, "what is p2p");
    assert_eq!(pq.asked_at, ts(42));
    assert!(pq.answers.is_empty());
}

#[test]
fn ask_uses_fresh_uuid_ids() {
    let mut s = AgentState::new(me(&[]));
    let m1 = s.ask("first", vec![]);
    let m2 = s.ask("second", vec![]);
    let id1 = match &m1 { AcpMessage::Question { question_id, .. } => question_id.clone(), _ => panic!() };
    let id2 = match &m2 { AcpMessage::Question { question_id, .. } => question_id.clone(), _ => panic!() };
    assert!(is_uuid_v4(&id1));
    assert!(is_uuid_v4(&id2));
    assert_ne!(id1, id2);
    assert_eq!(&id1[8..9], "-");
    assert!(s.pending_questions.contains_key(&id1));
    assert!(s.pending_questions.contains_key(&id2));
}

#[test]
fn acp_request_is_sent_as_client() {
    let s = AgentState::new(me(&[]));
    let m = s.acp_request_with("session/prompt".to_string(), "{}".to_string(), "m-1".to_string(), ts(3));
    match m {
        Some(AcpMessage::AcpJsonRpc { message_id, from_peer, from_alias, direction, payload, timestamp }) => {
            assert_eq!(message_id, "m-1");
            assert_eq!(from_peer, "peer-me");
            assert_eq!(from_alias, "alice");
            assert_eq!(direction, AcpDirection::ClientToAgent);
            assert_eq!(payload.method, "session/prompt");
            assert_eq!(payload.params_json, "{}");
            assert_eq!(timestamp, ts(3));
        }
        _ => panic!("expected an ACP payload"),
    }
    match s.acp_request("session/cancel".to_string(), "{\"a\": [1, 2]}".to_string()) {
        Some(AcpMessage::AcpJsonRpc { message_id, timestamp, .. }) => {
            assert!(is_uuid_v4(&message_id));
            assert!(timestamp.secs > 1_600_000_000);
        }
        _ => panic!("expected an ACP payload"),
    }
}

#[test]
fn acp_request_refuses_parameters_that_are_not_json() {
    let s = AgentState::new(me(&[]));
    assert!(s.acp_request("session/prompt".to_string(), "{oops".to_string()).is_none());
    assert!(s.acp_request_with("m".to_string(), "".to_string(), "m-2".to_string(), ts(1)).is_none());
    assert!(s.acp_request_with("m".to_string(), "null".to_string(), "m-3".to_string(), ts(1)).is_some());
}

fn is_uuid_v4(id: &str) -> bool {
    let cs: Vec<char> = id.chars().collect();
    cs.len() == 36
        && cs.iter().enumerate().all(|(i, c)| {
            if [8, 13, 18, 23].contains(&i) { *c == '-' } else { c.is_ascii_digit() || ('a'..='f').contains(c) }
        })
        && cs[14] == '4'
        && ['8', '9', 'a', 'b'].contains(&cs[19])
}

#[test]
fn received_confidence_is_kept_exactly() {
    let mut s = AgentState::new(me(&[]));
    let a = Answerer::new("alice".to_string());
    s.pending_questions.insert(
        "q7".to_string(),
        PendingQuestion { question_id: "q7".to_string(), content: "udp?".to_string(), asked_at: ts(0), answers: vec![] },
    );
    for x in [0.123f32, 1.5f32] {
        let m = AcpMessage::Answer {
            question_id: "q7".to_string(),
            from_peer: "peer-c".to_string(),
            from_alias: "carol".to_string(),
            content: "fast".to_string(),
            confidence: c(x),
            timestamp: ts(2),
        };
        handle_message_at(m, &mut s, &a, ts(3));
    }
    let pq = s.pending_questions.get("q7").unwrap();
    assert_eq!(f32::from_bits(pq.answers[0].confidence.bits), 0.123f32);
    assert_eq!(f32::from_bits(pq.answers[1].confidence.bits), 1.5f32);
}

#[test]
fn run_of_messages_answers_each_question_at_most_once() {
    let mut s = AgentState::new(me(&[]));
    let a = Answerer::new("alice".to_string());
    let run = vec![
        question("q8", "peer-b", "tcp?", &[]),
        question("q8", "peer-c", "tcp?", &[]),
        question("q9", "peer-me", "tcp?", &[]),
        question("q8", "peer-b", "tcp?", &[]),
        question("q10", "peer-b", "udp?", &[]),
    ];
    let mut answered = Vec::new();
    for m in run {
        if let Reaction::Answered { question_id, .. } = handle_message_at(m, &mut s, &a, ts(4)) {
            answered.push(question_id);
        }
    }
    assert_eq!(answered, vec!["q8".to_string(), "q10".to_string()]);
}
