use acp_p2p::protocol::{Confidence, AcpDirection, AcpMessage, AcpPayload, AgentInfo, Timestamp};

fn c(x: f32) -> Confidence {
    Confidence { bits: x.to_bits() }
}


fn ts() -> Timestamp {
    Timestamp { secs: 1_700_000_000, nanos: 5 }
}

#[test]
fn exposes_claimed_peer_id() {
    let msg = AcpMessage::Question {
        question_id: "q1".to_string(),
        from_peer: "peer-b".to_string(),
        from_alias: "bob".to_string(),
        content: "hello".to_string(),
        required_caps: vec![],
        timestamp: ts(),
    };

    assert_eq!(msg.claimed_peer_id(), "peer-b");
}

#[test]
fn claimed_peer_id_of_announce_is_agent_peer_id() {
    let msg = AcpMessage::Announce {
        agent: AgentInfo {
            peer_id: "peer-a".to_string(),
            alias: "alice".to_string(),
            capabilities: vec!["rust".to_string()],
        },
        timestamp: ts(),
    };
    assert_eq!(msg.claimed_peer_id(), "peer-a");
}

#[test]
fn claimed_peer_id_of_answer_goodbye_and_jsonrpc() {
    let answer = AcpMessage::Answer {
        question_id: "q1".to_string(),
        from_peer: "peer-c".to_string(),
        from_alias: "carol".to_string(),
        content: "42".to_string(),
        confidence: c(0.90),
        timestamp: ts(),
    };
    assert_eq!(answer.claimed_peer_id(), "peer-c");

    let bye = AcpMessage::Goodbye { peer_id: "peer-d".to_string(), alias: "dave".to_string() };
    assert_eq!(bye.claimed_peer_id(), "peer-d");

    let rpc = AcpMessage::AcpJsonRpc {
        message_id: "m1".to_string(),
        from_peer: "peer-e".to_string(),
        from_alias: "erin".to_string(),
        direction: AcpDirection::ClientToAgent,
        payload: AcpPayload { method: "session/prompt".to_string(), params_json: "{}".to_string() },
        timestamp: ts(),
    };
    assert_eq!(rpc.claimed_peer_id(), "peer-e");
}
