//! Properties of the node that span several operations or hold of every
//! state, proved over the specifications that the operations' contracts use.

use vstd::prelude::*;
use crate::answerer::{
    FIBONACCI_ANSWER,
    LIFETIME_ANSWER,
    P2P_ANSWER,
    PYTHON_FIBONACCI_ANSWER,
    RUST_FIBONACCI_ANSWER,
    TRANSPORT_ANSWER,
    answer_for,
    ascii_lowercase,
    lowercase_of,
    same_up_to_ascii_case,
};
use crate::node::{Command, Reaction, ask_parsed, handled, question_pending};
use crate::text::{has_substring, starts_with};
use crate::protocol::{AcpMessage, AgentInfo, Confidence, Timestamp, claimed_peer};
use crate::state::{
    AgentState,
    PendingQuestion,
    ReceivedAnswer,
    answer_appended,
    capabilities_allow,
    peers_after_add,
};

verus! {

/// Every known peer is recorded under its own peer id.
pub open spec fn peers_keyed_by_id(peers: Map<Seq<char>, AgentInfo>) -> bool {
    forall|k: Seq<char>| #[trigger] peers.contains_key(k) ==> peers[k].peer_id@ == k
}

/// Every pending question is recorded under its own question id.
pub open spec fn pending_keyed_by_id(pending: Map<Seq<char>, PendingQuestion>) -> bool {
    forall|k: Seq<char>| #[trigger] pending.contains_key(k) ==> pending[k].question_id@ == k
}

/// An agent never becomes its own peer: if it is not among its peers, an
/// announcement does not put it there.
pub proof fn law_self_never_a_peer(peers: Map<Seq<char>, AgentInfo>, me: Seq<char>, info: AgentInfo)
    requires
        !peers.contains_key(me),
    ensures
        !peers_after_add(peers, me, info).contains_key(me),
{
}

/// Announcements and farewells keep every peer recorded under its own id.
pub proof fn law_peers_stay_keyed_by_id(
    peers: Map<Seq<char>, AgentInfo>,
    me: Seq<char>,
    info: AgentInfo,
    gone: Seq<char>,
)
    requires
        peers_keyed_by_id(peers),
    ensures
        peers_keyed_by_id(peers_after_add(peers, me, info)),
        peers_keyed_by_id(peers.remove(gone)),
{
}

/// A farewell undoes an announcement: after a peer announces itself and then
/// says goodbye, it is no longer known, and the other peers are as before.
pub proof fn law_goodbye_undoes_announce(
    peers: Map<Seq<char>, AgentInfo>,
    me: Seq<char>,
    info: AgentInfo,
)
    ensures
        peers_after_add(peers, me, info).remove(info.peer_id@) == peers.remove(info.peer_id@),
        !peers_after_add(peers, me, info).remove(info.peer_id@).contains_key(info.peer_id@),
{
    assert(peers_after_add(peers, me, info).remove(info.peer_id@) =~= peers.remove(info.peer_id@));
}

/// Handling a message never forgets a seen question.
pub proof fn law_seen_questions_only_grow(
    pre: AgentState,
    post: AgentState,
    msg: AcpMessage,
    at: Timestamp,
    r: Reaction,
)
    requires
        handled(pre, post, msg, at, r),
    ensures
        pre.seen_questions@.dom().subset_of(post.seen_questions@.dom()),
{
}

/// Once a question from another agent has been handled, its id is seen.
pub proof fn law_handled_question_is_seen(
    pre: AgentState,
    post: AgentState,
    msg: AcpMessage,
    at: Timestamp,
    r: Reaction,
)
    requires
        handled(pre, post, msg, at, r),
        msg is Question,
        claimed_peer(msg) != pre.me.peer_id@,
    ensures
        post.seen_questions@.contains_key(msg->Question_question_id@),
{
}

/// A question whose id is already seen is not handled again: the node
/// ignores it and its state stays as it was.
pub proof fn law_seen_question_ignored(
    pre: AgentState,
    post: AgentState,
    msg: AcpMessage,
    at: Timestamp,
    r: Reaction,
)
    requires
        handled(pre, post, msg, at, r),
        msg is Question,
        pre.seen_questions@.contains_key(msg->Question_question_id@),
    ensures
        r is RepeatedQuestion || r is OwnQuestion,
        post.peers@ == pre.peers@,
        post.pending_questions@ == pre.pending_questions@,
        post.seen_questions@ == pre.seen_questions@,
{
}

/// A node answers a question at most once: delivered a second time, the
/// same question is ignored.
pub proof fn law_question_answered_at_most_once(
    s0: AgentState,
    s1: AgentState,
    s2: AgentState,
    msg: AcpMessage,
    t1: Timestamp,
    t2: Timestamp,
    r1: Reaction,
    r2: Reaction,
)
    requires
        handled(s0, s1, msg, t1, r1),
        handled(s1, s2, msg, t2, r2),
        msg is Question,
    ensures
        r2 is RepeatedQuestion || r2 is OwnQuestion,
        s2.seen_questions@ == s1.seen_questions@,
{
}

/// A node ignores the questions and answers that it sent itself, and its
/// state stays as it was.
pub proof fn law_own_messages_ignored(
    pre: AgentState,
    post: AgentState,
    msg: AcpMessage,
    at: Timestamp,
    r: Reaction,
)
    requires
        handled(pre, post, msg, at, r),
        msg is Question || msg is Answer,
        claimed_peer(msg) == pre.me.peer_id@,
    ensures
        r is OwnQuestion || r is OwnAnswer,
        post.peers@ == pre.peers@,
        post.pending_questions@ == pre.pending_questions@,
        post.seen_questions@ == pre.seen_questions@,
{
}

/// The reply a node publishes answers the question it was given, and claims
/// the node itself as its sender.
pub proof fn law_reply_answers_the_question(
    pre: AgentState,
    post: AgentState,
    msg: AcpMessage,
    at: Timestamp,
    r: Reaction,
)
    requires
        handled(pre, post, msg, at, r),
        r is Answered,
    ensures
        msg is Question,
        r->reply is Answer,
        r->reply->Answer_question_id@ == msg->Question_question_id@,
        claimed_peer(r->reply) == pre.me.peer_id@,
{
}

/// A question from another agent, not seen before, that requires no
/// capability is answered whenever the knowledge base has an answer to it.
pub proof fn law_open_question_answered_when_known(
    pre: AgentState,
    post: AgentState,
    msg: AcpMessage,
    at: Timestamp,
    r: Reaction,
)
    requires
        handled(pre, post, msg, at, r),
        msg is Question,
        claimed_peer(msg) != pre.me.peer_id@,
        !pre.seen_questions@.contains_key(msg->Question_question_id@),
        msg->Question_required_caps@.len() == 0,
        answer_for(lowercase_of(msg->Question_content@)) is Some,
    ensures
        r is Answered,
{
}

/// An answer to a question this node is not waiting on changes nothing.
pub proof fn law_stray_answer_dropped(
    pre: AgentState,
    post: AgentState,
    msg: AcpMessage,
    at: Timestamp,
    r: Reaction,
)
    requires
        handled(pre, post, msg, at, r),
        msg is Answer,
        !pre.pending_questions@.contains_key(msg->Answer_question_id@),
    ensures
        post.pending_questions@ == pre.pending_questions@,
        post.peers@ == pre.peers@,
        post.seen_questions@ == pre.seen_questions@,
{
}

/// Answers to a pending question accumulate in arrival order: after two
/// answers arrive, the question holds its earlier answers followed by both.
pub proof fn law_answers_accumulate_in_order(
    p0: Map<Seq<char>, PendingQuestion>,
    p1: Map<Seq<char>, PendingQuestion>,
    p2: Map<Seq<char>, PendingQuestion>,
    id: Seq<char>,
    a1: ReceivedAnswer,
    a2: ReceivedAnswer,
)
    requires
        p0.contains_key(id),
        answer_appended(p0, p1, id, a1),
        answer_appended(p1, p2, id, a2),
    ensures
        p2.contains_key(id),
        p2[id].answers@ == p0[id].answers@.push(a1).push(a2),
        p2[id].content == p0[id].content,
        p2.dom() == p0.dom(),
{
}

/// Asking questions and receiving answers keep every pending question
/// recorded under its own id.
pub proof fn law_pending_stay_keyed_by_id(
    pre: Map<Seq<char>, PendingQuestion>,
    asked: Map<Seq<char>, PendingQuestion>,
    answered: Map<Seq<char>, PendingQuestion>,
    id: Seq<char>,
    content: Seq<char>,
    at: Timestamp,
    a: ReceivedAnswer,
)
    requires
        pending_keyed_by_id(pre),
        question_pending(pre, asked, id, content, at),
        answer_appended(pre, answered, id, a),
    ensures
        pending_keyed_by_id(asked),
        pending_keyed_by_id(answered),
{
}

/// The answer to a question depends on the question only through its
/// lower-case form: questions with the same lower-case form get the same
/// answer.
pub proof fn law_answer_depends_on_lowercase_form(q1: Seq<char>, q2: Seq<char>)
    requires
        lowercase_of(q1) == lowercase_of(q2),
    ensures
        answer_for(lowercase_of(q1)) == answer_for(lowercase_of(q2)),
{
}

/// Matching ignores letter case: two ASCII questions that differ only in the
/// case of their letters get the same answer (the answer that `try_answer`
/// gives an ASCII question is `answer_for` of its ASCII lower case).
pub proof fn law_ascii_answer_ignores_case(q1: Seq<char>, q2: Seq<char>)
    requires
        same_up_to_ascii_case(q1, q2),
    ensures
        answer_for(ascii_lowercase(q1)) == answer_for(ascii_lowercase(q2)),
{
    assert(ascii_lowercase(q1) =~= ascii_lowercase(q2));
}

/// A question that requires no capability may be answered by any agent.
pub proof fn law_no_required_capability_admits_all(mine: Seq<Seq<char>>)
    ensures
        capabilities_allow(mine, Seq::empty()),
{
}

/// An agent answers a routed question when it declares at least one of the
/// capabilities the question lists.
pub proof fn law_shared_capability_admits(
    mine: Seq<Seq<char>>,
    required: Seq<Seq<char>>,
    tag: Seq<char>,
)
    requires
        mine.contains(tag),
        required.contains(tag),
    ensures
        capabilities_allow(mine, required),
{
    let i = choose|i: int| 0 <= i < required.len() && required[i] == tag;
    assert(mine.contains(required[i]));
}

/// `ask @<list> <question>` is the short form of
/// `ask --caps <list> <question>`: both read as the same command.
pub proof fn law_short_form_routing(r: Seq<char>, c: Command)
    ensures
        ask_parsed("--caps "@ + r, c) == ask_parsed("@"@ + r, c),
{
    reveal_strlit("--caps ");
    reveal_strlit("@");
    let long = "--caps "@ + r;
    let short = "@"@ + r;
    assert(long.take(7) =~= "--caps "@);
    assert(long.skip(7) =~= r);
    assert(short.take(1) =~= "@"@);
    assert(short.skip(1) =~= r);
    if starts_with(short, "--caps "@) {
        assert(short[0] == '@');
        assert(short.take(7)[0] == "--caps "@[0]);
    }
}

/// A run of messages handled one after another: `states[i]` handles
/// `msgs[i]` at `times[i]`, reacts with `reactions[i]` and becomes
/// `states[i + 1]`.
pub open spec fn handled_run(
    states: Seq<AgentState>,
    msgs: Seq<AcpMessage>,
    times: Seq<Timestamp>,
    reactions: Seq<Reaction>,
) -> bool {
    &&& states.len() == msgs.len() + 1
    &&& times.len() == msgs.len()
    &&& reactions.len() == msgs.len()
    &&& forall|i: int|
        #![trigger reactions[i]]
        0 <= i < msgs.len() ==> handled(states[i], states[i + 1], msgs[i], times[i], reactions[i])
}

proof fn lemma_answered(pre: AgentState, post: AgentState, msg: AcpMessage, at: Timestamp, r: Reaction)
    requires
        handled(pre, post, msg, at, r),
        r is Answered,
    ensures
        msg is Question,
        r->reply is Answer,
        r->reply->Answer_question_id@ == msg->Question_question_id@,
        !pre.seen_questions@.contains_key(msg->Question_question_id@),
        post.seen_questions@.contains_key(msg->Question_question_id@),
        claimed_peer(msg) != pre.me.peer_id@,
{
}

proof fn lemma_run_keeps_me(
    states: Seq<AgentState>,
    msgs: Seq<AcpMessage>,
    times: Seq<Timestamp>,
    reactions: Seq<Reaction>,
    k: int,
)
    requires
        handled_run(states, msgs, times, reactions),
        0 <= k <= msgs.len(),
    ensures
        states[k].me == states[0].me,
    decreases k,
{
    if k > 0 {
        lemma_run_keeps_me(states, msgs, times, reactions, k - 1);
        assert(handled(states[k - 1], states[k], msgs[k - 1], times[k - 1], reactions[k - 1]));
    }
}

proof fn lemma_run_seen_grows(
    states: Seq<AgentState>,
    msgs: Seq<AcpMessage>,
    times: Seq<Timestamp>,
    reactions: Seq<Reaction>,
    i: int,
    j: int,
)
    requires
        handled_run(states, msgs, times, reactions),
        0 <= i <= j <= msgs.len(),
    ensures
        states[i].seen_questions@.dom().subset_of(states[j].seen_questions@.dom()),
    decreases j - i,
{
    if i < j {
        lemma_run_seen_grows(states, msgs, times, reactions, i, j - 1);
        assert(handled(states[j - 1], states[j], msgs[j - 1], times[j - 1], reactions[j - 1]));
        law_seen_questions_only_grow(
            states[j - 1],
            states[j],
            msgs[j - 1],
            times[j - 1],
            reactions[j - 1],
        );
    }
}

/// Over any run of handled messages, a node publishes at most one answer
/// per question id, and none to a question it asked itself.
pub proof fn law_each_question_answered_at_most_once_in_a_run(
    states: Seq<AgentState>,
    msgs: Seq<AcpMessage>,
    times: Seq<Timestamp>,
    reactions: Seq<Reaction>,
)
    requires
        handled_run(states, msgs, times, reactions),
    ensures
        forall|i: int, j: int|
            0 <= i < j < msgs.len() && #[trigger] reactions[i] is Answered
                && #[trigger] reactions[j] is Answered ==> reactions[i]->reply->Answer_question_id@
                != reactions[j]->reply->Answer_question_id@,
        forall|i: int|
            0 <= i < msgs.len() && #[trigger] reactions[i] is Answered ==> claimed_peer(msgs[i])
                != states[0].me.peer_id@,
{
    assert forall|i: int, j: int|
        0 <= i < j < msgs.len() && #[trigger] reactions[i] is Answered
            && #[trigger] reactions[j] is Answered implies reactions[i]->reply->Answer_question_id@
        != reactions[j]->reply->Answer_question_id@ by {
        lemma_answered(states[i], states[i + 1], msgs[i], times[i], reactions[i]);
        lemma_answered(states[j], states[j + 1], msgs[j], times[j], reactions[j]);
        lemma_run_seen_grows(states, msgs, times, reactions, i + 1, j);
        let q = msgs[i]->Question_question_id@;
        assert(states[i + 1].seen_questions@.dom().contains(q));
    }
    assert forall|i: int| 0 <= i < msgs.len() && #[trigger] reactions[i] is Answered implies claimed_peer(
        msgs[i],
    ) != states[0].me.peer_id@ by {
        lemma_answered(states[i], states[i + 1], msgs[i], times[i], reactions[i]);
        lemma_run_keeps_me(states, msgs, times, reactions, i);
    }
}

/// A node that has handled no message yet has handled the empty run.
pub proof fn law_empty_run(s: AgentState)
    ensures
        handled_run(seq![s], Seq::<AcpMessage>::empty(), Seq::<Timestamp>::empty(), Seq::<Reaction>::empty()),
{
}

/// Handling one more message extends a run: after a run that ends in the
/// last of `states`, one more step handled from that state (as each call of
/// `handle_message` or `handle_message_at` ensures) gives a run one longer.
/// With [`law_empty_run`], every sequence of such calls on one state forms a
/// run, so [`law_each_question_answered_at_most_once_in_a_run`] covers it.
pub proof fn law_run_extends(
    states: Seq<AgentState>,
    msgs: Seq<AcpMessage>,
    times: Seq<Timestamp>,
    reactions: Seq<Reaction>,
    post: AgentState,
    msg: AcpMessage,
    at: Timestamp,
    r: Reaction,
)
    requires
        handled_run(states, msgs, times, reactions),
        handled(states.last(), post, msg, at, r),
    ensures
        handled_run(states.push(post), msgs.push(msg), times.push(at), reactions.push(r)),
{
    let s2 = states.push(post);
    let m2 = msgs.push(msg);
    let t2 = times.push(at);
    let r2 = reactions.push(r);
    assert forall|i: int| #![trigger r2[i]] 0 <= i < m2.len() implies handled(
        s2[i],
        s2[i + 1],
        m2[i],
        t2[i],
        r2[i],
    ) by {
        if i < msgs.len() {
            assert(reactions[i] == r2[i]);
            assert(handled(states[i], states[i + 1], msgs[i], times[i], reactions[i]));
        }
    }
}

/// A lower-case question that mentions both "fibonacci" and "rust" is
/// answered with the Rust program, at confidence 0.97 (`f32` bits 0x3f7851ec).
pub proof fn law_fibonacci_in_rust_answered(q: Seq<char>)
    requires
        has_substring(q, "fibonacci"@),
        has_substring(q, "rust"@),
    ensures
        answer_for(q) == Some((RUST_FIBONACCI_ANSWER@, Confidence { bits: 0x3f78_51ec })),
{
}

/// A lower-case question that mentions "fibonacci" and "python" but not
/// "rust" is answered with the Python program, at confidence 0.95 (`f32` bits
/// 0x3f733333).
pub proof fn law_fibonacci_in_python_answered(q: Seq<char>)
    requires
        has_substring(q, "fibonacci"@),
        has_substring(q, "python"@),
        !has_substring(q, "rust"@),
    ensures
        answer_for(q) == Some((PYTHON_FIBONACCI_ANSWER@, Confidence { bits: 0x3f73_3333 })),
{
}

/// A lower-case question that mentions "fibonacci" but neither "rust" nor
/// "python" is answered with the definition, at confidence 0.99 (`f32` bits
/// 0x3f7d70a4).
pub proof fn law_fibonacci_answered(q: Seq<char>)
    requires
        has_substring(q, "fibonacci"@),
        !has_substring(q, "rust"@),
        !has_substring(q, "python"@),
    ensures
        answer_for(q) == Some((FIBONACCI_ANSWER@, Confidence { bits: 0x3f7d_70a4 })),
{
}

/// A lower-case question that mentions "lifetime" (as in "lifetime" or
/// "lifetimes") or "borrow", and not "fibonacci", is answered with the
/// lifetimes text, at confidence 0.91 (`f32` bits 0x3f68f5c3).
pub proof fn law_lifetime_or_borrow_answered(q: Seq<char>)
    requires
        has_substring(q, "lifetime"@) || has_substring(q, "borrow"@),
        !has_substring(q, "fibonacci"@),
    ensures
        answer_for(q) == Some((LIFETIME_ANSWER@, Confidence { bits: 0x3f68_f5c3 })),
{
}

/// A lower-case question that mentions "tcp" or "udp", and none of
/// "fibonacci", "lifetime" and "borrow", is answered with the transport text,
/// at confidence 0.92 (`f32` bits 0x3f6b851f).
pub proof fn law_tcp_or_udp_answered(q: Seq<char>)
    requires
        has_substring(q, "tcp"@) || has_substring(q, "udp"@),
        !has_substring(q, "fibonacci"@),
        !has_substring(q, "lifetime"@),
        !has_substring(q, "borrow"@),
    ensures
        answer_for(q) == Some((TRANSPORT_ANSWER@, Confidence { bits: 0x3f6b_851f })),
{
}

/// A lower-case question that mentions "p2p" or "peer", and none of
/// "fibonacci", "lifetime", "borrow", "tcp" and "udp", is answered with the
/// peer-to-peer text, at confidence 0.89 (`f32` bits 0x3f63d70a).
pub proof fn law_p2p_or_peer_answered(q: Seq<char>)
    requires
        has_substring(q, "p2p"@) || has_substring(q, "peer"@),
        !has_substring(q, "fibonacci"@),
        !has_substring(q, "lifetime"@),
        !has_substring(q, "borrow"@),
        !has_substring(q, "tcp"@),
        !has_substring(q, "udp"@),
    ensures
        answer_for(q) == Some((P2P_ANSWER@, Confidence { bits: 0x3f63_d70a })),
{
}

/// A lower-case question is answered exactly when it mentions one of the
/// keywords "fibonacci", "lifetime", "borrow", "tcp", "udp", "p2p", "peer".
pub proof fn law_answered_iff_keyword(q: Seq<char>)
    ensures
        answer_for(q) is Some <==> (has_substring(q, "fibonacci"@) || has_substring(q, "lifetime"@)
            || has_substring(q, "borrow"@) || has_substring(q, "tcp"@) || has_substring(q, "udp"@)
            || has_substring(q, "p2p"@) || has_substring(q, "peer"@)),
{
}

/// A routed question is not answered by an agent that declares none of the
/// required capabilities: a capability counts only when a declared tag is
/// equal to it.
pub proof fn law_no_shared_capability_refuses(mine: Seq<Seq<char>>, required: Seq<Seq<char>>)
    requires
        required.len() > 0,
        forall|i: int| 0 <= i < required.len() ==> !mine.contains(#[trigger] required[i]),
    ensures
        !capabilities_allow(mine, required),
{
}

/// An answer that another agent sends to a pending question is stored as
/// sent: it is appended after the earlier answers and carries the message's
/// sender alias, sender peer id, content and confidence, received at the
/// time of handling.
pub proof fn law_received_answer_stored_as_sent(
    pre: AgentState,
    post: AgentState,
    msg: AcpMessage,
    at: Timestamp,
    r: Reaction,
)
    requires
        handled(pre, post, msg, at, r),
        msg is Answer,
        claimed_peer(msg) != pre.me.peer_id@,
        pre.pending_questions@.contains_key(msg->Answer_question_id@),
    ensures
        ({
            let id = msg->Answer_question_id@;
            let before = pre.pending_questions@[id].answers@;
            let after = post.pending_questions@[id].answers@;
            &&& post.pending_questions@.contains_key(id)
            &&& after.len() == before.len() + 1
            &&& after.take(before.len() as int) == before
            &&& after.last().from_alias == msg->Answer_from_alias
            &&& after.last().from_peer == msg->Answer_from_peer
            &&& after.last().content == msg->Answer_content
            &&& after.last().confidence == msg->Answer_confidence
            &&& after.last().received_at == at
        }),
{
    let id = msg->Answer_question_id@;
    let before = pre.pending_questions@[id].answers@;
    let after = post.pending_questions@[id].answers@;
    assert(after.take(before.len() as int) =~= before);
}

/// The answer a node publishes carries the node's own peer id and alias, the
/// question's id, and the knowledge base's text and confidence for the
/// question's lower-case form.
pub proof fn law_reply_carries_knowledge_base_answer(
    pre: AgentState,
    post: AgentState,
    msg: AcpMessage,
    at: Timestamp,
    r: Reaction,
)
    requires
        handled(pre, post, msg, at, r),
        r is Answered,
    ensures
        answer_for(lowercase_of(msg->Question_content@)) == Some(
            (r->reply->Answer_content@, r->reply->Answer_confidence),
        ),
        r->reply->Answer_from_peer@ == pre.me.peer_id@,
        r->reply->Answer_from_alias@ == pre.me.alias@,
        r->reply->Answer_question_id@ == msg->Question_question_id@,
        r->reply->Answer_timestamp == at,
{
}

} // verus!
