//! The answering engine of an agent: a small built-in knowledge base that
//! recognises a question by keywords, case-insensitively.

use vstd::prelude::*;
use crate::protocol::Confidence;
use crate::text::{contains_str, has_substring};

verus! {

/// Answer given to questions about Fibonacci in Rust.
pub const RUST_FIBONACCI_ANSWER: &'static str = "In Rust:\nfn fibonacci(n: u64) -> u64 {\n    match n {\n        0 => 0,\n        1 => 1,\n        _ => fibonacci(n-1) + fibonacci(n-2),\n    }\n}";

/// Answer given to questions about Fibonacci in Python.
pub const PYTHON_FIBONACCI_ANSWER: &'static str = "In Python:\ndef fib(n):\n    a, b = 0, 1\n    for _ in range(n):\n        a, b = b, a+b\n    return a";

/// Answer given to other questions about Fibonacci.
pub const FIBONACCI_ANSWER: &'static str = "Fibonacci: F(0)=0, F(1)=1, F(n)=F(n-1)+F(n-2). Closed form: F(n)=round(\u{3c6}\u{207f}/\u{221a}5) where \u{3c6}=(1+\u{221a}5)/2.";

/// Answer given to questions about lifetimes or borrowing.
pub const LIFETIME_ANSWER: &'static str = "Rust lifetimes ensure references never outlive the data they point to.";

/// Answer given to questions about TCP or UDP.
pub const TRANSPORT_ANSWER: &'static str = "TCP is reliable and ordered. UDP is fast but unordered. Use TCP for data integrity, UDP for real-time.";

/// Answer given to questions about peer-to-peer networks.
pub const P2P_ANSWER: &'static str = "P2P networks remove the central server. Peers discover each other via DHT or mDNS and communicate directly.";

/// The lower-case form of a string, as `str::to_lowercase` computes it
/// (Unicode case mapping).
pub uninterp spec fn lowercase_of(s: Seq<char>) -> Seq<char>;

/// Whether every character of `s` is ASCII.
pub open spec fn is_ascii_text(s: Seq<char>) -> bool {
    forall|i: int| 0 <= i < s.len() ==> (#[trigger] s[i] as u32) < 128
}

/// The ASCII lower case of a character: `A` to `Z` become `a` to `z`, every
/// other character stays.
pub open spec fn ascii_lower(c: char) -> char {
    if 0x41 <= (c as u32) <= 0x5a {
        ((c as u32) + 32) as char
    } else {
        c
    }
}

/// `s` with each character in ASCII lower case.
pub open spec fn ascii_lowercase(s: Seq<char>) -> Seq<char> {
    s.map_values(|c: char| ascii_lower(c))
}

/// Whether `a` and `b` differ at most in the ASCII case of their letters.
pub open spec fn same_up_to_ascii_case(a: Seq<char>, b: Seq<char>) -> bool {
    a.len() == b.len() && forall|i: int| 0 <= i < a.len() ==> ascii_lower(#[trigger] a[i]) == ascii_lower(b[i])
}

/// Calls `str::to_lowercase`; its result is the lower-case form of `s`,
/// a function of `s` alone, named [`lowercase_of`]. On ASCII text the
/// Unicode mapping lowers `A` to `Z` and keeps every other character.
#[verifier::external_body]
fn to_lowercase(s: &str) -> (r: String)
    ensures
        r@ == lowercase_of(s@),
        is_ascii_text(s@) ==> r@ == ascii_lowercase(s@),
{
    s.to_lowercase()
}

/// What the knowledge base answers to a question already in lower case:
/// the answer text and the confidence, or `None`. The first matching rule
/// wins. The confidences are the `f32` values 0.97, 0.95, 0.99, 0.91, 0.92
/// and 0.89, rule by rule.
pub open spec fn answer_for(q: Seq<char>) -> Option<(Seq<char>, Confidence)> {
    if has_substring(q, "fibonacci"@) && has_substring(q, "rust"@) {
        Some((RUST_FIBONACCI_ANSWER@, Confidence { bits: 0x3f78_51ec }))
    } else if has_substring(q, "fibonacci"@) && has_substring(q, "python"@) {
        Some((PYTHON_FIBONACCI_ANSWER@, Confidence { bits: 0x3f73_3333 }))
    } else if has_substring(q, "fibonacci"@) {
        Some((FIBONACCI_ANSWER@, Confidence { bits: 0x3f7d_70a4 }))
    } else if has_substring(q, "lifetime"@) || has_substring(q, "borrow"@) {
        Some((LIFETIME_ANSWER@, Confidence { bits: 0x3f68_f5c3 }))
    } else if has_substring(q, "tcp"@) || has_substring(q, "udp"@) {
        Some((TRANSPORT_ANSWER@, Confidence { bits: 0x3f6b_851f }))
    } else if has_substring(q, "p2p"@) || has_substring(q, "peer"@) {
        Some((P2P_ANSWER@, Confidence { bits: 0x3f63_d70a }))
    } else {
        None
    }
}

/// An answer as its text's characters and its confidence.
pub open spec fn reply_view(r: Option<(String, Confidence)>) -> Option<(Seq<char>, Confidence)> {
    match r {
        Some((text, confidence)) => Some((text@, confidence)),
        None => None,
    }
}

/// Simulated answering engine of one agent.
pub struct Answerer {
    pub alias: String,
}

impl Answerer {
    /// An answering engine for the agent called `alias`.
    pub fn new(alias: String) -> (r: Self)
        ensures
            r.alias == alias,
    {
        Self { alias }
    }

    /// Tries to answer `question`: the answer text and the confidence, or
    /// `None` when the knowledge base has nothing on it. Keywords
    /// are matched on the lower-case form of the question.
    pub fn try_answer(&self, question: &str) -> (r: Option<(String, Confidence)>)
        ensures
            reply_view(r) == answer_for(lowercase_of(question@)),
            is_ascii_text(question@) ==> reply_view(r) == answer_for(ascii_lowercase(question@)),
    {
        let q = to_lowercase(question);
        answer_lowercase(q.as_str())
    }
}

/// The knowledge base's answer to a question already in lower case.
pub fn answer_lowercase(q: &str) -> (r: Option<(String, Confidence)>)
    ensures
        reply_view(r) == answer_for(q@),
{
    let fib = contains_str(q, "fibonacci");
    if fib && contains_str(q, "rust") {
        return Some((RUST_FIBONACCI_ANSWER.to_string(), Confidence { bits: 0x3f78_51ec }));
    }
    if fib && contains_str(q, "python") {
        return Some((PYTHON_FIBONACCI_ANSWER.to_string(), Confidence { bits: 0x3f73_3333 }));
    }
    if fib {
        return Some((FIBONACCI_ANSWER.to_string(), Confidence { bits: 0x3f7d_70a4 }));
    }
    if contains_str(q, "lifetime") || contains_str(q, "borrow") {
        return Some((LIFETIME_ANSWER.to_string(), Confidence { bits: 0x3f68_f5c3 }));
    }
    if contains_str(q, "tcp") || contains_str(q, "udp") {
        return Some((TRANSPORT_ANSWER.to_string(), Confidence { bits: 0x3f6b_851f }));
    }
    if contains_str(q, "p2p") || contains_str(q, "peer") {
        return Some((P2P_ANSWER.to_string(), Confidence { bits: 0x3f63_d70a }));
    }
    None
}

} // verus!
