//! The transitions of a replica, as relations between what it holds before
//! and after.

use crate::message::{CampaignType, Message, MessageType};
use crate::raft::{RaftCore, StateRole, VoteResult, INVALID_ID};
use crate::tracker::TrackerView;
use vstd::prelude::*;

verus! {

/// What a replica holds: its core, its tracker and its outbound queue.
#[verifier::ext_equal]
pub struct RaftView {
    /// Term, vote, role and timers.
    pub r: RaftCore,
    /// Membership, replication states and ballots.
    pub prs: TrackerView,
    /// The messages that wait to be sent, oldest first.
    pub msgs: Seq<Message>,
}

impl RaftView {
    /// Every voter of either half of the joint quorum, but the node itself.
    pub open spec fn peers(self) -> Set<u64> {
        self.prs.conf.voters().remove(self.r.id)
    }

    /// The replica after the ballot of `from` has been recorded.
    pub open spec fn polled(self, from: u64, granted: bool) -> RaftView {
        RaftView { prs: self.prs.recorded(from, granted), ..self }
    }

    /// The ballot box of a campaign that has just begun: it holds the
    /// node's own ballot and no other.
    pub open spec fn own_ballot(self) -> TrackerView {
        TrackerView { votes: Map::<u64, bool>::empty().insert(self.r.id, true), ..self.prs }
    }
}

/// The replicas that the messages of `batch` are for, in order.
pub open spec fn recipients(batch: Seq<Message>) -> Seq<u64> {
    Seq::new(batch.len(), |i: int| batch[i].to)
}

/// `batch` holds one copy of `template` for each of `peers`, addressed to
/// it, and nothing else. The order of the copies is open.
pub open spec fn is_broadcast(batch: Seq<Message>, peers: Set<u64>, template: Message) -> bool {
    &&& recipients(batch).no_duplicates()
    &&& recipients(batch).to_set() == peers
    &&& forall|i: int|
        0 <= i < batch.len() ==> #[trigger] batch[i] == (Message { to: batch[i].to, ..template })
}

/// `after` is `before` with one copy of `template` for each of `peers` put
/// at its end.
pub open spec fn extends_by_broadcast(
    before: Seq<Message>,
    after: Seq<Message>,
    peers: Set<u64>,
    template: Message,
) -> bool {
    &&& before.len() <= after.len()
    &&& after.take(before.len() as int) == before
    &&& is_broadcast(after.skip(before.len() as int), peers, template)
}

/// The request for a vote that a node with core `core` sends when it starts
/// a campaign of kind `kind`, before an addressee is filled in. It carries
/// the term after `core`'s, and the marker of a transfer where it is one.
pub open spec fn vote_request(core: RaftCore, kind: CampaignType) -> Message {
    Message {
        msg_type: if kind == CampaignType::PreElection {
            MessageType::MsgRequestPreVote
        } else {
            MessageType::MsgRequestVote
        },
        to: INVALID_ID,
        from: core.id,
        term: (core.term + 1) as u64,
        reject: false,
        context: if kind == CampaignType::Transfer {
            Some(CampaignType::Transfer)
        } else {
            None
        },
    }
}

/// The heartbeat of a leader with core `core`, before an addressee is
/// filled in.
pub open spec fn heartbeat(core: RaftCore) -> Message {
    Message {
        msg_type: MessageType::MsgHeartbeat,
        to: INVALID_ID,
        from: core.id,
        term: core.term,
        reject: false,
        context: None,
    }
}

/// What a node with core `core` answers to `to`, a leader of an earlier
/// term: an acknowledgment at the node's own term, by which `to` learns
/// that it is out of date.
pub open spec fn stale_reply(core: RaftCore, to: u64) -> Message {
    Message {
        msg_type: MessageType::MsgAppendResponse,
        to,
        from: core.id,
        term: core.term,
        reject: false,
        context: None,
    }
}

/// The local signal by which node `id` tells itself to start an election.
pub open spec fn hup_signal(id: u64) -> Message {
    Message {
        msg_type: MessageType::MsgHup,
        to: INVALID_ID,
        from: id,
        term: 0,
        reject: false,
        context: None,
    }
}

/// What the term of a message asks of the node that receives it.
#[derive(Clone, Copy, Debug, PartialEq, Eq, Structural)]
pub enum TermCheck {
    /// The message goes on to the handler of the node's role.
    Proceed,
    /// A request for a vote that arrives while the node still hears from a
    /// leader: it is dropped, and nothing changes.
    Ignore,
    /// A message of a later term: the node becomes a follower at that term,
    /// of `leader_id`, and the message then goes on to its handler.
    Adopt { leader_id: u64 },
    /// A message of an earlier term: it is dropped, after an answer to its
    /// sender where `reply` is set.
    Stale { reply: bool },
}

/// What the term of `msg` asks of a node with core `core`.
pub open spec fn term_check(core: RaftCore, msg: Message) -> TermCheck {
    if msg.term == 0 {
        TermCheck::Proceed
    } else if msg.term > core.term {
        if (msg.msg_type == MessageType::MsgRequestVote || msg.msg_type
            == MessageType::MsgRequestPreVote) && msg.context != Some(CampaignType::Transfer)
            && core.in_lease() {
            TermCheck::Ignore
        } else if msg.msg_type == MessageType::MsgRequestPreVote || (msg.msg_type
            == MessageType::MsgRequestPreVoteResponse && !msg.reject) {
            TermCheck::Proceed
        } else if msg.msg_type == MessageType::MsgHeartbeat {
            TermCheck::Adopt { leader_id: msg.from }
        } else {
            TermCheck::Adopt { leader_id: INVALID_ID }
        }
    } else if msg.term < core.term {
        TermCheck::Stale {
            reply: core.check_quorum && (msg.msg_type == MessageType::MsgHeartbeat || msg.msg_type
                == MessageType::MsgAppend),
        }
    } else {
        TermCheck::Proceed
    }
}

/// The core after a campaign of kind `kind` that began at `core`, where
/// `won` says whether the node's own ballot was a quorum and `timeout` is
/// the election timeout that was drawn last.
pub open spec fn campaign_core(
    core: RaftCore,
    kind: CampaignType,
    won: bool,
    timeout: usize,
) -> RaftCore {
    if kind == CampaignType::PreElection {
        if won {
            core.as_pre_candidate().as_candidate(timeout).as_leader(timeout)
        } else {
            core.as_pre_candidate()
        }
    } else {
        if won {
            core.as_candidate(timeout).as_leader(timeout)
        } else {
            core.as_candidate(timeout)
        }
    }
}

/// A campaign of kind `kind` leads from `pre` to `post`: the node becomes a
/// candidate (a pre-candidate for a trial election), asks each peer for its
/// vote, starts a new ballot box with its own ballot, and, where that
/// ballot alone is a quorum, goes on at once: from a won trial to the
/// election, from a won election to leadership.
pub open spec fn campaign_post(pre: RaftView, kind: CampaignType, post: RaftView) -> bool {
    let won = pre.own_ballot().vote_result() == VoteResult::Won;
    &&& post.r == campaign_core(pre.r, kind, won, post.r.randomized_election_timeout)
    &&& post.prs == pre.own_ballot()
    &&& extends_by_broadcast(pre.msgs, post.msgs, pre.peers(), vote_request(pre.r, kind))
}

/// The local signal to start an election leads from `pre` to `post`: a
/// leader ignores it, any other node starts a campaign.
pub open spec fn hup_post(pre: RaftView, transfer_leader: bool, post: RaftView) -> bool {
    if pre.r.state == StateRole::Leader {
        post == pre
    } else {
        campaign_post(
            pre,
            if transfer_leader {
                CampaignType::Transfer
            } else {
                CampaignType::Election
            },
            post,
        )
    }
}

/// The answer that a node in role `state` counts as a ballot.
pub open spec fn awaited_answer(state: StateRole) -> MessageType {
    if state == StateRole::PreCandidate {
        MessageType::MsgRequestPreVoteResponse
    } else {
        MessageType::MsgRequestVoteResponse
    }
}

/// The handler of a candidate or pre-candidate leads from `pre` to `post`
/// on `msg`: an answer to its request is recorded as a ballot; a won trial
/// starts the election, a won election makes the node leader, a lost vote
/// makes it a follower again, and a pending vote waits on. Any other
/// message changes nothing.
pub open spec fn step_candidate_post(pre: RaftView, msg: Message, post: RaftView) -> bool {
    if msg.msg_type != awaited_answer(pre.r.state) {
        post == pre
    } else {
        let polled = pre.polled(msg.from, !msg.reject);
        match polled.prs.vote_result() {
            VoteResult::Won => if pre.r.state == StateRole::PreCandidate {
                campaign_post(polled, CampaignType::Election, post)
            } else {
                post == (RaftView {
                    r: pre.r.as_leader(post.r.randomized_election_timeout),
                    ..polled
                })
            },
            VoteResult::Lost => post == (RaftView {
                r: pre.r.as_follower(pre.r.term, INVALID_ID, post.r.randomized_election_timeout),
                ..polled
            }),
            VoteResult::Pending => post == polled,
        }
    }
}

/// A message that has passed the check of its term leads from `pre` to
/// `post`: the local signal starts an election, whatever the role; any
/// other message goes to the handler of the role.
pub open spec fn dispatch_post(pre: RaftView, msg: Message, post: RaftView) -> bool {
    if msg.msg_type == MessageType::MsgHup {
        hup_post(pre, false, post)
    } else {
        match pre.r.state {
            StateRole::PreCandidate | StateRole::Candidate => step_candidate_post(pre, msg, post),
            StateRole::Follower => post == pre,
            StateRole::Leader => post == pre,
        }
    }
}

/// `msg` leads from `pre` to `post`: first the check of its term, which may
/// drop it or make the node a follower at its term, then the handler. Of
/// the election timeouts drawn on the way only the last shows in `post`.
pub open spec fn step_post(pre: RaftView, msg: Message, post: RaftView) -> bool {
    match term_check(pre.r, msg) {
        TermCheck::Ignore => post == pre,
        TermCheck::Stale { reply } => post == (RaftView {
            msgs: if reply {
                pre.msgs.push(stale_reply(pre.r, msg.from))
            } else {
                pre.msgs
            },
            ..pre
        }),
        TermCheck::Adopt { leader_id } => dispatch_post(
            RaftView {
                r: pre.r.as_follower(msg.term, leader_id, post.r.randomized_election_timeout),
                ..pre
            },
            msg,
            post,
        ),
        TermCheck::Proceed => dispatch_post(pre, msg, post),
    }
}

/// One tick of a node that is no leader leads from `pre` to `post`: the
/// election clock advances; where it reaches the randomized timeout it is
/// set back to zero and the node signals itself to start an election.
/// `output` says whether anything was put on the outbound queue.
pub open spec fn tick_election_post(pre: RaftView, post: RaftView, output: bool) -> bool {
    if pre.r.election_elapsed + 1 < pre.r.randomized_election_timeout {
        &&& !output
        &&& post == (RaftView {
            r: RaftCore { election_elapsed: (pre.r.election_elapsed + 1) as usize, ..pre.r },
            ..pre
        })
    } else {
        &&& output == (post.msgs.len() > pre.msgs.len())
        &&& step_post(
            RaftView { r: RaftCore { election_elapsed: 0, ..pre.r }, ..pre },
            hup_signal(pre.r.id),
            post,
        )
    }
}

/// One tick of a leader leads from `pre` to `post`: the heartbeat clock
/// advances; where it reaches the heartbeat timeout it is set back to zero
/// and each peer is sent a heartbeat. `output` says whether anything was put
/// on the outbound queue.
pub open spec fn tick_heartbeat_post(pre: RaftView, post: RaftView, output: bool) -> bool {
    if pre.r.heartbeat_elapsed + 1 < pre.r.heartbeat_timeout {
        &&& !output
        &&& post == (RaftView {
            r: RaftCore { heartbeat_elapsed: (pre.r.heartbeat_elapsed + 1) as usize, ..pre.r },
            ..pre
        })
    } else {
        &&& output == (post.msgs.len() > pre.msgs.len())
        &&& post.r == (RaftCore { heartbeat_elapsed: 0, ..pre.r })
        &&& post.prs == pre.prs
        &&& extends_by_broadcast(pre.msgs, post.msgs, pre.peers(), heartbeat(pre.r))
    }
}

/// One tick leads from `pre` to `post`, and `output` says whether it put
/// anything on the outbound queue.
pub open spec fn tick_post(pre: RaftView, post: RaftView, output: bool) -> bool {
    if pre.r.state == StateRole::Leader {
        tick_heartbeat_post(pre, post, output)
    } else {
        tick_election_post(pre, post, output)
    }
}

} // verus!
