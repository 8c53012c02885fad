//! In-memory state of a single agent node: the peers it knows, the
//! questions it asked with the answers they drew, and the questions it has
//! seen.

use vstd::prelude::*;
use crate::protocol::{AcpMessage, AgentInfo, Capability, Confidence, Timestamp};
use crate::strmap::StrMap;
use crate::text::views_of;

verus! {

/// A question this agent asked, with the answers that came in.
#[derive(Debug)]
pub struct PendingQuestion {
    pub question_id: String,
    pub content: String,
    pub asked_at: Timestamp,
    pub answers: Vec<ReceivedAnswer>,
}

/// An answer received from another agent.
#[derive(Debug, Clone)]
pub struct ReceivedAnswer {
    pub from_alias: String,
    pub from_peer: String,
    pub content: String,
    pub confidence: Confidence,
    pub received_at: Timestamp,
}

/// Full agent state.
pub struct AgentState {
    pub me: AgentInfo,
    pub peers: StrMap<AgentInfo>,
    pub pending_questions: StrMap<PendingQuestion>,
    pub seen_questions: StrMap<String>,
}

/// The known peers after `info` is announced to an agent whose own peer id
/// is `me`: an agent never records itself as a peer.
pub open spec fn peers_after_add(
    peers: Map<Seq<char>, AgentInfo>,
    me: Seq<char>,
    info: AgentInfo,
) -> Map<Seq<char>, AgentInfo> {
    if info.peer_id@ != me {
        peers.insert(info.peer_id@, info)
    } else {
        peers
    }
}

/// The questions seen after `q` arrives: a question message is recorded
/// under its id with its content; any other message changes nothing.
pub open spec fn seen_after_record(
    seen: Map<Seq<char>, String>,
    q: AcpMessage,
) -> Map<Seq<char>, String> {
    match q {
        AcpMessage::Question { question_id, content, .. } => seen.insert(question_id@, content),
        _ => seen,
    }
}

/// `post` is `pre` with `a` appended to the answers of the pending question
/// `id`; when no such question is pending, `post` is `pre`.
pub open spec fn answer_appended(
    pre: Map<Seq<char>, PendingQuestion>,
    post: Map<Seq<char>, PendingQuestion>,
    id: Seq<char>,
    a: ReceivedAnswer,
) -> bool {
    if pre.contains_key(id) {
        &&& post == pre.insert(id, post[id])
        &&& post[id].question_id == pre[id].question_id
        &&& post[id].content == pre[id].content
        &&& post[id].asked_at == pre[id].asked_at
        &&& post[id].answers@ == pre[id].answers@.push(a)
    } else {
        post == pre
    }
}

/// Whether an agent with capabilities `mine` should answer a question that
/// requires `required`: always when nothing is required, otherwise when it
/// has at least one of the required capabilities.
pub open spec fn capabilities_allow(mine: Seq<Seq<char>>, required: Seq<Seq<char>>) -> bool {
    required.len() == 0 || exists|i: int| 0 <= i < required.len() && mine.contains(#[trigger] required[i])
}

impl AgentState {
    /// A fresh state for the agent `me`, knowing no peers and no questions.
    pub fn new(me: AgentInfo) -> (r: Self)
        ensures
            r.me == me,
            r.peers@ == Map::<Seq<char>, AgentInfo>::empty(),
            r.pending_questions@ == Map::<Seq<char>, PendingQuestion>::empty(),
            r.seen_questions@ == Map::<Seq<char>, String>::empty(),
    {
        Self {
            me,
            peers: StrMap::new(),
            pending_questions: StrMap::new(),
            seen_questions: StrMap::new(),
        }
    }

    /// Records `info` as a known peer, unless it is this agent itself.
    pub fn add_peer(&mut self, info: AgentInfo)
        ensures
            final(self).me == old(self).me,
            final(self).peers@ == peers_after_add(old(self).peers@, old(self).me.peer_id@, info),
            final(self).pending_questions@ == old(self).pending_questions@,
            final(self).seen_questions@ == old(self).seen_questions@,
    {
        if !(info.peer_id == self.me.peer_id) {
            let key = info.peer_id.clone();
            self.peers.insert(key, info);
        }
    }

    /// Forgets the peer `peer_id`.
    pub fn remove_peer(&mut self, peer_id: &str)
        ensures
            final(self).me == old(self).me,
            final(self).peers@ == old(self).peers@.remove(peer_id@),
            final(self).pending_questions@ == old(self).pending_questions@,
            final(self).seen_questions@ == old(self).seen_questions@,
    {
        let _ = self.peers.remove(peer_id);
    }

    /// Marks a question message as seen, keeping its content.
    pub fn record_question(&mut self, q: &AcpMessage)
        ensures
            final(self).me == old(self).me,
            final(self).peers@ == old(self).peers@,
            final(self).pending_questions@ == old(self).pending_questions@,
            final(self).seen_questions@ == seen_after_record(old(self).seen_questions@, *q),
    {
        if let AcpMessage::Question { question_id, content, .. } = q {
            self.seen_questions.insert(question_id.clone(), content.clone());
        }
    }

    /// Appends `answer` to the pending question `question_id`; an answer to a
    /// question this agent is not waiting on is dropped.
    pub fn add_answer(&mut self, answer: ReceivedAnswer, question_id: &str)
        ensures
            final(self).me == old(self).me,
            final(self).peers@ == old(self).peers@,
            answer_appended(
                old(self).pending_questions@,
                final(self).pending_questions@,
                question_id@,
                answer,
            ),
            final(self).seen_questions@ == old(self).seen_questions@,
    {
        let ghost pre = self.pending_questions@;
        if let Some(mut pq) = self.pending_questions.remove(question_id) {
            pq.answers.push(answer);
            let key = question_id.to_string();
            self.pending_questions.insert(key, pq);
            proof {
                let post = self.pending_questions@;
                assert(post =~= pre.insert(question_id@, post[question_id@]));
            }
        } else {
            assert(self.pending_questions@ =~= pre);
        }
    }

    /// The number of known peers.
    pub fn peer_count(&self) -> (r: usize)
        ensures
            r == self.peers@.len(),
    {
        self.peers.len()
    }

    /// Whether this agent should answer a question that requires
    /// `required_caps`.
    pub fn should_answer(&self, required_caps: &Vec<Capability>) -> (r: bool)
        ensures
            r == capabilities_allow(views_of(self.me.capabilities@), views_of(required_caps@)),
    {
        let n = required_caps.len();
        if n == 0 {
            return true;
        }
        let mine = &self.me.capabilities;
        let m = mine.len();
        let mut i: usize = 0;
        while i < n
            invariant
                i <= n,
                n == required_caps@.len(),
                m == mine@.len(),
                mine@ == self.me.capabilities@,
                forall|k: int|
                    0 <= k < i ==> !views_of(mine@).contains(#[trigger] views_of(required_caps@)[k]),
            decreases n - i,
        {
            let mut j: usize = 0;
            while j < m
                invariant
                    j <= m,
                    i < n,
                    n == required_caps@.len(),
                    m == mine@.len(),
                    mine@ == self.me.capabilities@,
                    forall|l: int| 0 <= l < j ==> mine@[l]@ != required_caps@[i as int]@,
                decreases m - j,
            {
                if mine[j] == required_caps[i] {
                    proof {
                        assert(views_of(mine@)[j as int] == views_of(required_caps@)[i as int]);
                        assert(views_of(mine@).contains(views_of(required_caps@)[i as int]));
                        assert(capabilities_allow(views_of(mine@), views_of(required_caps@)));
                    }
                    return true;
                }
                j = j + 1;
            }
            proof {
                if views_of(mine@).contains(views_of(required_caps@)[i as int]) {
                    let l = choose|l: int|
                        0 <= l < views_of(mine@).len() && views_of(mine@)[l] == views_of(
                            required_caps@,
                        )[i as int];
                    assert(mine@[l]@ == required_caps@[i as int]@);
                }
            }
            i = i + 1;
        }
        false
    }
}

} // verus!
