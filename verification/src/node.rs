//! The decisions of an agent node: what it does with each message from the
//! mesh, how it reads a console command, and how it asks a question. The
//! network and the console stay outside; these functions take what arrived
//! and say what to send and what to report.

use vstd::prelude::*;
use crate::answerer::{Answerer, answer_for, lowercase_of};
use crate::protocol::{
    AcpDirection,
    AcpMessage,
    AcpPayload,
    AgentInfo,
    Capability,
    Confidence,
    Timestamp,
    is_json,
    json_is_valid,
    now,
};
use crate::state::{
    AgentState,
    PendingQuestion,
    ReceivedAnswer,
    answer_appended,
    capabilities_allow,
    peers_after_add,
};
use crate::text::{
    find_char,
    same_text,
    split,
    split_on,
    split_once,
    starts_with,
    strip_prefix,
    trim,
    trimmed,
    views_of,
};

verus! {

/// What a node did with one incoming message.
#[derive(Debug)]
pub enum Reaction {
    /// An announcement: the sender was recorded as a peer (unless it is this node).
    PeerAnnounced,
    /// A farewell: the sender was forgotten.
    PeerLeft,
    /// A question this node asked itself: ignored.
    OwnQuestion,
    /// A question already seen: ignored.
    RepeatedQuestion,
    /// A new question that requires capabilities this node lacks.
    NotOurCapabilities { question_id: String, from_alias: String, content: String },
    /// A new question the knowledge base has no answer for.
    NoAnswer { question_id: String, from_alias: String, content: String },
    /// A new question answered; `reply` is the answer to publish.
    Answered { question_id: String, from_alias: String, content: String, reply: AcpMessage },
    /// An answer this node sent itself: ignored.
    OwnAnswer,
    /// An answer from another agent, kept if its question is pending here.
    AnswerReceived,
    /// A relayed ACP JSON-RPC payload, which this node does not act on.
    Unhandled,
}

/// `m` is this node's answer `text` with confidence `confidence` to the
/// question `question_id`, sent at `at` by the agent `me`.
pub open spec fn is_answer_to(
    m: AcpMessage,
    question_id: Seq<char>,
    me: AgentInfo,
    text: Seq<char>,
    confidence: Confidence,
    at: Timestamp,
) -> bool {
    match m {
        AcpMessage::Answer {
            question_id: q,
            from_peer,
            from_alias,
            content,
            confidence: c,
            timestamp,
        } => {
            &&& q@ == question_id
            &&& from_peer@ == me.peer_id@
            &&& from_alias@ == me.alias@
            &&& content@ == text
            &&& c == confidence
            &&& timestamp == at
        },
        _ => false,
    }
}

/// The reaction to a question not seen before and not asked by this node.
pub open spec fn new_question_reaction(
    me: AgentInfo,
    question_id: String,
    from_alias: String,
    content: String,
    required_caps: Vec<Capability>,
    at: Timestamp,
    r: Reaction,
) -> bool {
    if !capabilities_allow(views_of(me.capabilities@), views_of(required_caps@)) {
        r == Reaction::NotOurCapabilities { question_id, from_alias, content }
    } else {
        match answer_for(lowercase_of(content@)) {
            Some((text, confidence)) => match r {
                Reaction::Answered { question_id: q, from_alias: a, content: c, reply } => {
                    &&& q == question_id
                    &&& a == from_alias
                    &&& c == content
                    &&& is_answer_to(reply, question_id@, me, text, confidence, at)
                },
                _ => false,
            },
            None => r == Reaction::NoAnswer { question_id, from_alias, content },
        }
    }
}

/// A node in state `pre` that receives `msg` at time `at` ends in state
/// `post` and reacts with `r`.
pub open spec fn handled(
    pre: AgentState,
    post: AgentState,
    msg: AcpMessage,
    at: Timestamp,
    r: Reaction,
) -> bool {
    &&& post.me == pre.me
    &&& match msg {
        AcpMessage::Announce { agent, .. } => {
            &&& r is PeerAnnounced
            &&& post.peers@ == peers_after_add(pre.peers@, pre.me.peer_id@, agent)
            &&& post.pending_questions@ == pre.pending_questions@
            &&& post.seen_questions@ == pre.seen_questions@
        },
        AcpMessage::Goodbye { peer_id, .. } => {
            &&& r is PeerLeft
            &&& post.peers@ == pre.peers@.remove(peer_id@)
            &&& post.pending_questions@ == pre.pending_questions@
            &&& post.seen_questions@ == pre.seen_questions@
        },
        AcpMessage::Question {
            question_id,
            from_peer,
            from_alias,
            content,
            required_caps,
            ..
        } => {
            &&& post.peers@ == pre.peers@
            &&& post.pending_questions@ == pre.pending_questions@
            &&& if from_peer@ == pre.me.peer_id@ {
                r is OwnQuestion && post.seen_questions@ == pre.seen_questions@
            } else if pre.seen_questions@.contains_key(question_id@) {
                r is RepeatedQuestion && post.seen_questions@ == pre.seen_questions@
            } else {
                &&& post.seen_questions@ == pre.seen_questions@.insert(question_id@, content)
                &&& new_question_reaction(
                    pre.me,
                    question_id,
                    from_alias,
                    content,
                    required_caps,
                    at,
                    r,
                )
            }
        },
        AcpMessage::Answer { question_id, from_peer, from_alias, content, confidence, .. } => {
            &&& post.peers@ == pre.peers@
            &&& post.seen_questions@ == pre.seen_questions@
            &&& if from_peer@ == pre.me.peer_id@ {
                r is OwnAnswer && post.pending_questions@ == pre.pending_questions@
            } else {
                &&& r is AnswerReceived
                &&& answer_appended(
                    pre.pending_questions@,
                    post.pending_questions@,
                    question_id@,
                    ReceivedAnswer { from_alias, from_peer, content, confidence, received_at: at },
                )
            }
        },
        AcpMessage::AcpJsonRpc { .. } => {
            &&& r is Unhandled
            &&& post.peers@ == pre.peers@
            &&& post.pending_questions@ == pre.pending_questions@
            &&& post.seen_questions@ == pre.seen_questions@
        },
    }
}

/// Handles one message from the mesh as it arrives at time `at`: updates
/// the state and says what to report and what, if anything, to publish.
pub fn handle_message_at(
    msg: AcpMessage,
    state: &mut AgentState,
    answerer: &Answerer,
    at: Timestamp,
) -> (r: Reaction)
    ensures
        handled(*old(state), *final(state), msg, at, r),
{
    match msg {
        AcpMessage::Announce { agent, .. } => {
            state.add_peer(agent);
            Reaction::PeerAnnounced
        },
        AcpMessage::Goodbye { peer_id, .. } => {
            state.remove_peer(peer_id.as_str());
            Reaction::PeerLeft
        },
        AcpMessage::Question {
            ref question_id,
            ref from_peer,
            ref from_alias,
            ref content,
            ref required_caps,
            ..
        } => {
            if *from_peer == state.me.peer_id {
                return Reaction::OwnQuestion;
            }
            if state.seen_questions.contains_key(question_id.as_str()) {
                return Reaction::RepeatedQuestion;
            }
            state.record_question(&msg);
            if !state.should_answer(required_caps) {
                return Reaction::NotOurCapabilities {
                    question_id: question_id.clone(),
                    from_alias: from_alias.clone(),
                    content: content.clone(),
                };
            }
            match answerer.try_answer(content.as_str()) {
                Some((answer_text, confidence)) => {
                    let reply = AcpMessage::Answer {
                        question_id: question_id.clone(),
                        from_peer: state.me.peer_id.clone(),
                        from_alias: state.me.alias.clone(),
                        content: answer_text,
                        confidence,
                        timestamp: at,
                    };
                    Reaction::Answered {
                        question_id: question_id.clone(),
                        from_alias: from_alias.clone(),
                        content: content.clone(),
                        reply,
                    }
                },
                None => Reaction::NoAnswer {
                    question_id: question_id.clone(),
                    from_alias: from_alias.clone(),
                    content: content.clone(),
                },
            }
        },
        AcpMessage::Answer { question_id, from_peer, from_alias, content, confidence, .. } => {
            if from_peer == state.me.peer_id {
                return Reaction::OwnAnswer;
            }
            let answer = ReceivedAnswer {
                from_alias,
                from_peer,
                content,
                confidence,
                received_at: at,
            };
            state.add_answer(answer, question_id.as_str());
            Reaction::AnswerReceived
        },
        AcpMessage::AcpJsonRpc { .. } => Reaction::Unhandled,
    }
}

/// Handles one message from the mesh as it arrives now (the clock is read
/// once); the reaction is the one [`handle_message_at`] gives at that time.
pub fn handle_message(msg: AcpMessage, state: &mut AgentState, answerer: &Answerer) -> (r:
    Reaction)
    ensures
        exists|at: Timestamp|
            0 <= at.secs && at.nanos < 1_000_000_000 && handled(
                *old(state),
                *final(state),
                msg,
                at,
                r,
            ),
{
    let at = now();
    let r = handle_message_at(msg, state, answerer, at);
    assert(handled(*old(state), *state, msg, at, r));
    r
}

/// A console command, as typed by the user.
#[derive(Debug, PartialEq, Eq)]
pub enum Command {
    /// A blank line.
    Empty,
    /// `peers`: list the known peers.
    Peers,
    /// `quit` or `exit`: say goodbye and leave the mesh.
    Quit,
    /// `ask <question>`, `ask --caps <list> <question>` or
    /// `ask @<list> <question>`: broadcast a question, to the agents with one
    /// of the listed capabilities when a list is given.
    Ask { question: String, required_caps: Vec<Capability> },
    /// `acp <method> <json-params>`: broadcast an ACP JSON-RPC payload.
    Acp { method: String, params_json: String },
    /// `dial <multiaddr>`: connect to a peer.
    Dial(String),
    /// Anything else.
    Unknown,
}

/// `c` is the question `ask` routed to the capabilities listed before the
/// first space of `r`, with the text after that space; without a space
/// there is no question.
pub open spec fn routed_ask(r: Seq<char>, c: Command) -> bool {
    match find_char(r, ' ') {
        Some(i) => c matches Command::Ask { question, required_caps } && question@ == r.skip(i + 1)
            && views_of(required_caps@) == capability_list(r.take(i)),
        None => c is Unknown,
    }
}

/// `c` is the command that `ask ` followed by `rest` stands for.
pub open spec fn ask_parsed(rest: Seq<char>, c: Command) -> bool {
    if starts_with(rest, "--caps "@) {
        routed_ask(rest.skip("--caps "@.len() as int), c)
    } else if starts_with(rest, "@"@) {
        routed_ask(rest.skip("@"@.len() as int), c)
    } else {
        c matches Command::Ask { question, required_caps } && question@ == rest
            && required_caps@.len() == 0
    }
}

/// `c` is the command that `acp ` followed by `rest` stands for: the method
/// is the text before the first space, the parameters the text after it.
pub open spec fn acp_parsed(rest: Seq<char>, c: Command) -> bool {
    match find_char(rest, ' ') {
        Some(i) => c matches Command::Acp { method, params_json } && method@ == rest.take(i)
            && params_json@ == rest.skip(i + 1),
        None => c is Unknown,
    }
}

/// `c` is the command that the console line `line` stands for; the line is
/// trimmed first.
pub open spec fn parsed_as(line: Seq<char>, c: Command) -> bool {
    let t = trimmed(line);
    if t.len() == 0 {
        c is Empty
    } else if t == "peers"@ {
        c is Peers
    } else if t == "quit"@ || t == "exit"@ {
        c is Quit
    } else if starts_with(t, "ask "@) {
        ask_parsed(t.skip("ask "@.len() as int), c)
    } else if starts_with(t, "acp "@) {
        acp_parsed(t.skip("acp "@.len() as int), c)
    } else if starts_with(t, "dial "@) {
        c matches Command::Dial(a) && a@ == t.skip("dial "@.len() as int)
    } else {
        c is Unknown
    }
}

fn parse_routed_ask(r: &str) -> (c: Command)
    ensures
        routed_ask(r@, c),
{
    match split_once(r, ' ') {
        Some((caps, question)) => Command::Ask {
            question: question.to_string(),
            required_caps: parse_capabilities(caps),
        },
        None => Command::Unknown,
    }
}

fn parse_ask(rest: &str) -> (c: Command)
    ensures
        ask_parsed(rest@, c),
{
    if let Some(r) = strip_prefix(rest, "--caps ") {
        return parse_routed_ask(r);
    }
    if let Some(r) = strip_prefix(rest, "@") {
        return parse_routed_ask(r);
    }
    Command::Ask { question: rest.to_string(), required_caps: Vec::new() }
}

/// Reads one console line as a command.
pub fn parse_command(line: &str) -> (c: Command)
    ensures
        parsed_as(line@, c),
{
    let t = trim(line);
    if t.is_empty() {
        return Command::Empty;
    }
    if same_text(t, "peers") {
        return Command::Peers;
    }
    if same_text(t, "quit") || same_text(t, "exit") {
        return Command::Quit;
    }
    if let Some(rest) = strip_prefix(t, "ask ") {
        return parse_ask(rest);
    }
    if let Some(rest) = strip_prefix(t, "acp ") {
        return match split_once(rest, ' ') {
            Some((method, params)) => Command::Acp {
                method: method.to_string(),
                params_json: params.to_string(),
            },
            None => Command::Unknown,
        };
    }
    if let Some(addr) = strip_prefix(t, "dial ") {
        return Command::Dial(addr.to_string());
    }
    Command::Unknown
}

/// The capability tags named by a comma-separated list, each trimmed; an
/// empty list names none.
pub open spec fn capability_list(s: Seq<char>) -> Seq<Seq<char>> {
    if s.len() == 0 {
        Seq::empty()
    } else {
        split_on(s, ',').map_values(|p: Seq<char>| trimmed(p))
    }
}

/// Reads a comma-separated list of capability tags (e.g. `rust, math`).
pub fn parse_capabilities(caps: &str) -> (r: Vec<Capability>)
    ensures
        views_of(r@) == capability_list(caps@),
{
    if caps.is_empty() {
        let r: Vec<Capability> = Vec::new();
        assert(views_of(r@) =~= capability_list(caps@));
        return r;
    }
    let parts = split(caps, ',');
    let n = parts.len();
    let mut out: Vec<Capability> = Vec::new();
    let mut i: usize = 0;
    while i < n
        invariant
            i <= n,
            n == parts@.len(),
            n == split_on(caps@, ',').len(),
            forall|j: int| 0 <= j < n ==> #[trigger] parts@[j]@ == split_on(caps@, ',')[j],
            out@.len() == i,
            forall|j: int| 0 <= j < i ==> #[trigger] out@[j]@ == trimmed(split_on(caps@, ',')[j]),
        decreases n - i,
    {
        let piece = trim(parts[i]);
        out.push(piece.to_string());
        i = i + 1;
    }
    assert(views_of(out@) =~= capability_list(caps@));
    out
}

/// Whether `c` is a lower-case hexadecimal digit.
pub open spec fn is_lower_hex_digit(c: char) -> bool {
    let n = c as u32;
    (0x30 <= n <= 0x39) || (0x61 <= n <= 0x66)
}

/// Whether `s` is the hyphenated text of a version 4 (random) UUID: 36
/// characters, hyphens at 8, 13, 18 and 23 and lower-case hex digits
/// elsewhere, the version digit `4` at 14 and one of `8`, `9`, `a`, `b` at 19.
pub open spec fn is_uuid_v4_text(s: Seq<char>) -> bool {
    &&& s.len() == 36
    &&& forall|i: int|
        0 <= i < 36 ==> if i == 8 || i == 13 || i == 18 || i == 23 {
            #[trigger] s[i] == '-'
        } else {
            is_lower_hex_digit(s[i])
        }
    &&& s[14] == '4'
    &&& (s[19] == '8' || s[19] == '9' || s[19] == 'a' || s[19] == 'b')
}

/// A new message id from `uuid::Uuid::new_v4`, in its hyphenated text form
/// (`Display`, lower case). The id is random; every outcome is the text of a
/// version 4 UUID, the version and variant bits being fixed by `new_v4`.
#[verifier::external_body]
fn fresh_id() -> (r: String)
    ensures
        is_uuid_v4_text(r@),
{
    uuid::Uuid::new_v4().to_string()
}

/// `m` is the question `content` with id `question_id` that the agent `me`
/// asks at `at` of the agents with one of the capabilities `caps` (of
/// everyone when `caps` is empty).
pub open spec fn is_question_from(
    m: AcpMessage,
    question_id: Seq<char>,
    me: AgentInfo,
    content: Seq<char>,
    caps: Vec<Capability>,
    at: Timestamp,
) -> bool {
    match m {
        AcpMessage::Question {
            question_id: q,
            from_peer,
            from_alias,
            content: c,
            required_caps,
            timestamp,
        } => {
            &&& q@ == question_id
            &&& from_peer@ == me.peer_id@
            &&& from_alias@ == me.alias@
            &&& c@ == content
            &&& required_caps == caps
            &&& timestamp == at
        },
        _ => false,
    }
}

/// After asking `content` under `question_id` at `at`, the pending
/// questions `post` are `pre` with a fresh entry for it.
pub open spec fn question_pending(
    pre: Map<Seq<char>, PendingQuestion>,
    post: Map<Seq<char>, PendingQuestion>,
    question_id: Seq<char>,
    content: Seq<char>,
    at: Timestamp,
) -> bool {
    &&& post == pre.insert(question_id, post[question_id])
    &&& post[question_id].question_id@ == question_id
    &&& post[question_id].content@ == content
    &&& post[question_id].asked_at == at
    &&& post[question_id].answers@.len() == 0
}

impl AgentState {
    /// Asks `question` under the id `question_id` at time `at`, of the agents
    /// with one of `required_caps` (of everyone when it is empty): the
    /// question becomes pending here, and the message to publish is returned.
    pub fn ask_with(
        &mut self,
        question: &str,
        required_caps: Vec<Capability>,
        question_id: String,
        at: Timestamp,
    ) -> (m: AcpMessage)
        ensures
            final(self).me == old(self).me,
            final(self).peers@ == old(self).peers@,
            final(self).seen_questions@ == old(self).seen_questions@,
            question_pending(
                old(self).pending_questions@,
                final(self).pending_questions@,
                question_id@,
                question@,
                at,
            ),
            is_question_from(m, question_id@, old(self).me, question@, required_caps, at),
    {
        let ghost pre = self.pending_questions@;
        let pending = PendingQuestion {
            question_id: question_id.clone(),
            content: question.to_string(),
            asked_at: at,
            answers: Vec::new(),
        };
        self.pending_questions.insert(question_id.clone(), pending);
        proof {
            let post = self.pending_questions@;
            assert(post =~= pre.insert(question_id@, post[question_id@]));
        }
        AcpMessage::Question {
            question_id,
            from_peer: self.me.peer_id.clone(),
            from_alias: self.me.alias.clone(),
            content: question.to_string(),
            required_caps,
            timestamp: at,
        }
    }

    /// Asks `question` under a fresh random id, now, of the agents with one
    /// of `required_caps` (of everyone when it is empty).
    pub fn ask(&mut self, question: &str, required_caps: Vec<Capability>) -> (m: AcpMessage)
        ensures
            final(self).me == old(self).me,
            final(self).peers@ == old(self).peers@,
            final(self).seen_questions@ == old(self).seen_questions@,
            exists|id: Seq<char>, at: Timestamp|
                is_uuid_v4_text(id) && 0 <= at.secs && at.nanos < 1_000_000_000 && question_pending(
                    old(self).pending_questions@,
                    final(self).pending_questions@,
                    id,
                    question@,
                    at,
                ) && is_question_from(m, id, old(self).me, question@, required_caps, at),
    {
        let id = fresh_id();
        let at = now();
        let ghost idv = id@;
        let ghost caps = required_caps;
        let m = self.ask_with(question, required_caps, id, at);
        assert(question_pending(
            old(self).pending_questions@,
            self.pending_questions@,
            idv,
            question@,
            at,
        ));
        m
    }

    /// The ACP JSON-RPC payload `method` with parameters `params_json`, sent
    /// by this agent as a client under the id `message_id` at time `at`;
    /// `None` when the parameters are not JSON text.
    pub fn acp_request_with(
        &self,
        method: String,
        params_json: String,
        message_id: String,
        at: Timestamp,
    ) -> (m: Option<AcpMessage>)
        ensures
            m is Some <==> is_json(params_json@),
            m is Some ==> m == Some(
                AcpMessage::AcpJsonRpc {
                    message_id,
                    from_peer: self.me.peer_id,
                    from_alias: self.me.alias,
                    direction: AcpDirection::ClientToAgent,
                    payload: AcpPayload { method, params_json },
                    timestamp: at,
                },
            ),
    {
        if !json_is_valid(params_json.as_str()) {
            return None;
        }
        Some(
            AcpMessage::AcpJsonRpc {
                message_id,
                from_peer: self.me.peer_id.clone(),
                from_alias: self.me.alias.clone(),
                direction: AcpDirection::ClientToAgent,
                payload: AcpPayload { method, params_json },
                timestamp: at,
            },
        )
    }

    /// The ACP JSON-RPC payload `method` with parameters `params_json`, sent
    /// by this agent as a client under a fresh random id, now; `None` when
    /// the parameters are not JSON text.
    pub fn acp_request(&self, method: String, params_json: String) -> (m: Option<AcpMessage>)
        ensures
            m is Some <==> is_json(params_json@),
            m is Some ==> exists|id: String, at: Timestamp|
                is_uuid_v4_text(id@) && 0 <= at.secs && at.nanos < 1_000_000_000 && m == Some(
                    AcpMessage::AcpJsonRpc {
                        message_id: id,
                        from_peer: self.me.peer_id,
                        from_alias: self.me.alias,
                        direction: AcpDirection::ClientToAgent,
                        payload: AcpPayload { method, params_json },
                        timestamp: at,
                    },
                ),
    {
        let id = fresh_id();
        let at = now();
        let ghost idv = id;
        let m = self.acp_request_with(method, params_json, id, at);
        assert(m is Some ==> m == Some(
            AcpMessage::AcpJsonRpc {
                message_id: idv,
                from_peer: self.me.peer_id,
                from_alias: self.me.alias,
                direction: AcpDirection::ClientToAgent,
                payload: AcpPayload { method, params_json },
                timestamp: at,
            },
        ));
        m
    }
}

} // verus!
