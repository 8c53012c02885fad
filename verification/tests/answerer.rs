use acp_p2p::protocol::Confidence;
use acp_p2p::answerer::{
    answer_lowercase, Answerer, FIBONACCI_ANSWER, LIFETIME_ANSWER, P2P_ANSWER,
    PYTHON_FIBONACCI_ANSWER, RUST_FIBONACCI_ANSWER, TRANSPORT_ANSWER,
};

fn c(x: f32) -> Confidence {
    Confidence { bits: x.to_bits() }
}


#[test]
fn new_keeps_alias() {
    let a = Answerer::new("alice".to_string());
    assert_eq!(a.alias, "alice");
}

#[test]
fn fibonacci_in_rust() {
    let a = Answerer::new("a".to_string());
    let (text, conf) = a.try_answer("How do I write fibonacci in rust?").unwrap();
    assert_eq!(text, RUST_FIBONACCI_ANSWER);
    assert_eq!(conf, c(0.97));
    assert!(text.starts_with("In Rust:\nfn fibonacci(n: u64) -> u64 {"));
}

#[test]
fn question_is_lowercased_before_matching() {
    let a = Answerer::new("a".to_string());
    let (text, conf) = a.try_answer("FIBONACCI in PYTHON").unwrap();
    assert_eq!(text, PYTHON_FIBONACCI_ANSWER);
    assert_eq!(conf, c(0.95));
    // the inner function sees the text as given: upper case matches nothing
    assert_eq!(answer_lowercase("FIBONACCI in PYTHON"), None);
}

#[test]
fn rust_rule_wins_over_python_rule() {
    let a = Answerer::new("a".to_string());
    let (text, conf) = a.try_answer("fibonacci: rust or python?").unwrap();
    assert_eq!(text, RUST_FIBONACCI_ANSWER);
    assert_eq!(conf, c(0.97));
}

#[test]
fn plain_fibonacci() {
    let (text, conf) = answer_lowercase("what is fibonacci").unwrap();
    assert_eq!(text, FIBONACCI_ANSWER);
    assert_eq!(conf, c(0.99));
    assert!(text.contains("φ=(1+√5)/2"));
}

#[test]
fn lifetimes_and_borrowing() {
    assert_eq!(answer_lowercase("explain lifetimes"), Some((LIFETIME_ANSWER.to_string(), c(0.91))));
    assert_eq!(answer_lowercase("the borrow checker"), Some((LIFETIME_ANSWER.to_string(), c(0.91))));
}

#[test]
fn transport_protocols() {
    assert_eq!(answer_lowercase("tcp vs udp"), Some((TRANSPORT_ANSWER.to_string(), c(0.92))));
    assert_eq!(answer_lowercase("is udp reliable"), Some((TRANSPORT_ANSWER.to_string(), c(0.92))));
}

#[test]
fn peer_to_peer() {
    assert_eq!(answer_lowercase("what is p2p"), Some((P2P_ANSWER.to_string(), c(0.89))));
    assert_eq!(answer_lowercase("how do peers find each other"), Some((P2P_ANSWER.to_string(), c(0.89))));
}

#[test]
fn unknown_question_gets_no_answer() {
    let a = Answerer::new("a".to_string());
    assert_eq!(a.try_answer("what is the weather today"), None);
    assert_eq!(a.try_answer(""), None);
}

#[test]
fn answer_ignores_case_law_example() {
    let a = Answerer::new("a".to_string());
    assert_eq!(a.try_answer("TCP?"), a.try_answer("tcp?"));
}

#[test]
fn ascii_questions_differing_in_case_get_the_same_answer() {
    let a = Answerer::new("a".to_string());
    assert_eq!(a.try_answer("What Is P2P?"), a.try_answer("wHAT iS p2p?"));
    assert_eq!(a.try_answer("BORROW"), answer_lowercase("borrow"));
}
