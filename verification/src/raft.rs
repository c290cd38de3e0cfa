//! The role and term state machine of a replica.

pub mod election;
pub mod outbox;
pub mod transitions;

use crate::config::Config;
use crate::error::Error;
use crate::message::{new_message, CampaignType, Message, MessageType};
use crate::rng::{draw_in_range, entropy_rng, seeded_rng};
use crate::tracker::{empty_tracker, ProgressTracker};
use election::{lemma_broadcast_to_nobody, lemma_winner_has_no_peers};
use outbox::{lemma_broadcast_twice, lemma_ids_finite, send_to_each};
use rand::rngs::StdRng;
pub use transitions::{RaftView, TermCheck};
use transitions::{
    campaign_post, dispatch_post, extends_by_broadcast, hup_post, step_candidate_post, step_post,
    term_check, tick_election_post, tick_heartbeat_post, tick_post, vote_request,
};
use vstd::prelude::*;

verus! {

/// A constant represents invalid id of raft.
pub const INVALID_ID: u64 = 0;

/// The outcome of a vote.
#[derive(Clone, Copy, Debug, PartialEq, Eq, Structural)]
pub enum VoteResult {
    /// A quorum has voted in favour.
    Won,
    /// Neither outcome is settled yet.
    Pending,
    /// A quorum in favour can no longer be reached.
    Lost,
}

/// The role of a replica.
#[derive(Debug, PartialEq, Eq, Clone, Copy, Structural)]
pub enum StateRole {
    /// It follows a leader, or waits for one to show.
    Follower,
    /// It campaigns for the votes of the peers.
    Candidate,
    /// It leads its term.
    Leader,
    /// It holds a trial election, which changes no term.
    PreCandidate,
}

// default start up server is Follower
impl Default for StateRole {
    fn default() -> (role: Self)
        ensures
            role == StateRole::Follower,
    {
        Self::Follower
    }
}

/// contain raft core component
#[derive(Clone, Copy, Debug, PartialEq, Eq, Structural)]
pub struct RaftCore {
    pub id: u64,
    /// current election term
    pub term: u64,
    /// vote for node id
    pub vote: u64,
    /// Curent raft state
    pub state: StateRole,
    /// leader id
    pub leader_id: u64,
    /// if it doesn't receive message from leader
    /// it will timeout
    /// election timeout must be greater than
    /// HeartbeatTick. We suggest election_timeout = 10 * heartbeat_timeout to avoid
    /// unnecessary leader switching
    pub election_timeout: usize,
    pub heartbeat_timeout: usize,
    /// Whether to check the quorum
    /// The quorum is True when this node believe the current leader still alive with the majority
    pub check_quorum: bool,
    /// Randomize election timeout
    /// will in range [min_election_timeout, max_election_timeout)
    pub randomized_election_timeout: usize,
    pub min_election_timeout: usize,
    pub max_election_timeout: usize,
    /// Number of ticks since it reached last electionTimeout.
    pub election_elapsed: usize,
    /// Number of ticks since the leader last sent its heartbeats.
    pub heartbeat_elapsed: usize,
}

impl RaftCore {
    /// The timers are those of a valid configuration record.
    pub open spec fn configured(self) -> bool {
        &&& self.id != INVALID_ID
        &&& 0 < self.heartbeat_timeout
        &&& self.heartbeat_timeout < self.election_timeout
        &&& self.election_timeout <= self.min_election_timeout
        &&& self.min_election_timeout < self.max_election_timeout
    }

    /// The randomized election timeout lies in `[min, max)`.
    pub open spec fn timeout_in_range(self) -> bool {
        self.min_election_timeout <= self.randomized_election_timeout
            < self.max_election_timeout
    }

    /// What holds of the core between any two calls: the timers are those of
    /// a valid record, the randomized election timeout lies in `[min, max)`,
    /// and neither clock has run past its limit.
    pub open spec fn wf(self) -> bool {
        &&& self.configured()
        &&& self.timeout_in_range()
        &&& self.election_elapsed < self.max_election_timeout
        &&& self.heartbeat_elapsed < self.heartbeat_timeout
    }

    /// The core of a node that has just been started from `conf` and has
    /// drawn `timeout`: a follower at term 0 that knows no leader and has
    /// voted for nobody.
    pub open spec fn initial(conf: Config, timeout: usize) -> RaftCore {
        RaftCore {
            id: conf.id,
            term: 0,
            vote: INVALID_ID,
            state: StateRole::Follower,
            leader_id: INVALID_ID,
            election_timeout: conf.election_tick,
            heartbeat_timeout: conf.heartbeat_tick,
            check_quorum: conf.check_quorum,
            randomized_election_timeout: timeout,
            min_election_timeout: conf.min_election_tick,
            max_election_timeout: conf.max_election_tick,
            election_elapsed: 0,
            heartbeat_elapsed: 0,
        }
    }

    /// The core after its term has been reset to `term` and `timeout` has
    /// been drawn: the vote is cleared only where the term changes, the
    /// leader is forgotten in any case.
    pub open spec fn after_reset(self, term: u64, timeout: usize) -> RaftCore {
        RaftCore {
            term,
            vote: if self.term != term {
                INVALID_ID
            } else {
                self.vote
            },
            leader_id: INVALID_ID,
            randomized_election_timeout: timeout,
            ..self
        }
    }

    /// The core after it has become a follower of `leader_id` at `term`.
    pub open spec fn as_follower(self, term: u64, leader_id: u64, timeout: usize) -> RaftCore {
        RaftCore { state: StateRole::Follower, leader_id, ..self.after_reset(term, timeout) }
    }

    /// The core after it has become a candidate: the term has grown by one
    /// and the vote is its own.
    pub open spec fn as_candidate(self, timeout: usize) -> RaftCore {
        RaftCore {
            vote: self.id,
            state: StateRole::Candidate,
            ..self.after_reset((self.term + 1) as u64, timeout)
        }
    }

    /// The core after it has become a pre-candidate: neither the term nor
    /// the vote changes.
    pub open spec fn as_pre_candidate(self) -> RaftCore {
        RaftCore { state: StateRole::PreCandidate, leader_id: INVALID_ID, ..self }
    }

    /// The core after it has become the leader of its term.
    pub open spec fn as_leader(self, timeout: usize) -> RaftCore {
        RaftCore {
            state: StateRole::Leader,
            leader_id: self.id,
            heartbeat_elapsed: 0,
            ..self.after_reset(self.term, timeout)
        }
    }

    /// The node knows a leader and has heard of it within the election
    /// timeout.
    pub open spec fn in_lease(self) -> bool {
        self.leader_id != INVALID_ID && self.election_elapsed < self.election_timeout
    }

    /// Whether the core is as it is between any two calls.
    pub fn is_wf(&self) -> (ok: bool)
        ensures
            ok == self.wf(),
    {
        self.id != INVALID_ID && 0 < self.heartbeat_timeout && self.heartbeat_timeout
            < self.election_timeout && self.election_timeout <= self.min_election_timeout
            && self.min_election_timeout < self.max_election_timeout
            && self.min_election_timeout <= self.randomized_election_timeout
            && self.randomized_election_timeout < self.max_election_timeout
            && self.election_elapsed < self.max_election_timeout && self.heartbeat_elapsed
            < self.heartbeat_timeout
    }

    /// Puts `m` at the end of the outbound queue.
    pub fn send(&mut self, m: Message, msgs: &mut Vec<Message>)
        ensures
            *final(self) == *old(self),
            final(msgs)@ == old(msgs)@.push(m),
    {
        msgs.push(m);
    }
}

/// One replica: its tracker, its core, its outbound queue, and the source
/// of its election jitter.
pub struct Raft {
    /// Membership, replication states and the ballots of the election in flight.
    pub prs: ProgressTracker,
    /// Term, vote, role and timers.
    pub r: RaftCore,
    /// The outbound queue: what was produced since it was last drained.
    pub msg: Vec<Message>,
    /// Where the election timeouts are drawn from.
    pub rng: StdRng,
}

impl View for Raft {
    type V = RaftView;

    open spec fn view(&self) -> RaftView {
        RaftView { r: self.r, prs: self.prs@, msgs: self.msg@ }
    }
}

impl Raft {
    /// What holds of a replica between any two calls.
    pub open spec fn wf(&self) -> bool {
        self.r.wf()
    }

    /// Whether the replica is as it is between any two calls.
    pub fn is_wf(&self) -> (ok: bool)
        ensures
            ok == self.wf(),
    {
        self.r.is_wf()
    }

    /// Starts a replica from the valid record `conf` that draws its election
    /// timeouts from `rng`.
    fn start(conf: &Config, rng: StdRng) -> (raft: Self)
        requires
            conf.valid(),
        ensures
            raft.wf(),
            raft@ == (RaftView {
                r: RaftCore::initial(*conf, raft.r.randomized_election_timeout),
                prs: empty_tracker(),
                msgs: Seq::empty(),
            }),
    {
        let mut r = Raft {
            prs: ProgressTracker::default(),
            r: RaftCore {
                id: conf.id,
                term: 0,
                vote: INVALID_ID,
                state: StateRole::default(),
                leader_id: INVALID_ID,
                election_timeout: conf.election_tick,
                heartbeat_timeout: conf.heartbeat_tick,
                randomized_election_timeout: 0,
                min_election_timeout: conf.min_election_tick,
                max_election_timeout: conf.max_election_tick,
                election_elapsed: 0,
                heartbeat_elapsed: 0,
                check_quorum: conf.check_quorum,
            },
            msg: Vec::new(),
            rng,
        };
        let term = r.r.term;
        r.become_follower(term, INVALID_ID);
        r
    }

    /// Starts a replica from `conf`, with the election jitter seeded by the
    /// operating system. A record that is not valid is refused, with the
    /// first rule that it breaks. A valid record starts the replica, unless
    /// the operating system gives no seed.
    pub fn new(conf: &Config) -> (res: Result<Self, Error>)
        ensures
            !conf.valid() ==> conf.defect() is Some && res == Err::<Self, Error>(
                Error::ConfigInvalid(conf.defect()->0),
            ),
            conf.valid() ==> res is Ok || res == Err::<Self, Error>(Error::NoEntropy),
            res matches Ok(raft) ==> {
                &&& raft.wf()
                &&& raft@ == (RaftView {
                    r: RaftCore::initial(*conf, raft.r.randomized_election_timeout),
                    prs: empty_tracker(),
                    msgs: Seq::empty(),
                })
            },
    {
        match conf.validate() {
            Ok(()) => {},
            Err(e) => {
                return Err(e);
            },
        }
        match entropy_rng() {
            Some(rng) => Ok(Self::start(conf, rng)),
            None => Err(Error::NoEntropy),
        }
    }

    /// Starts a replica as `new` does, with the election jitter seeded by
    /// `seed`: two replicas started from the same record and seed draw the
    /// same timeouts. It starts on every valid record.
    pub fn with_seed(conf: &Config, seed: u64) -> (res: Result<Self, Error>)
        ensures
            res is Ok <==> conf.valid(),
            !conf.valid() ==> conf.defect() is Some && res == Err::<Self, Error>(
                Error::ConfigInvalid(conf.defect()->0),
            ),
            res matches Ok(raft) ==> {
                &&& raft.wf()
                &&& raft@ == (RaftView {
                    r: RaftCore::initial(*conf, raft.r.randomized_election_timeout),
                    prs: empty_tracker(),
                    msgs: Seq::empty(),
                })
            },
    {
        match conf.validate() {
            Ok(()) => {},
            Err(e) => {
                return Err(e);
            },
        }
        Ok(Self::start(conf, seeded_rng(seed)))
    }

    /// Sets the term to `term`. The vote is cleared where that changes the
    /// term, and kept where it does not; the leader is forgotten and the
    /// election timeout drawn anew in either case.
    pub fn reset_term(&mut self, term: u64)
        requires
            old(self).r.min_election_timeout < old(self).r.max_election_timeout,
        ensures
            final(self)@ == (RaftView {
                r: old(self).r.after_reset(term, final(self).r.randomized_election_timeout),
                ..old(self)@
            }),
            final(self).r.timeout_in_range(),
            final(self).r.term == term,
            old(self).r.term != term ==> final(self).r.vote == INVALID_ID,
            old(self).r.term == term ==> final(self).r.vote == old(self).r.vote,
            final(self).r.leader_id == INVALID_ID,
    {
        if self.r.term != term {
            self.r.term = term;
            self.r.vote = INVALID_ID;
        }
        self.r.leader_id = INVALID_ID;
        self.randomized_election_timeout()
    }

    /// Draws the randomized election timeout anew, from `[min, max)`.
    pub fn randomized_election_timeout(&mut self)
        requires
            old(self).r.min_election_timeout < old(self).r.max_election_timeout,
        ensures
            final(self)@ == (RaftView {
                r: RaftCore {
                    randomized_election_timeout: final(self).r.randomized_election_timeout,
                    ..old(self).r
                },
                ..old(self)@
            }),
            final(self).r.timeout_in_range(),
    {
        let timeout = draw_in_range(
            &mut self.rng,
            self.r.min_election_timeout,
            self.r.max_election_timeout,
        );
        self.r.randomized_election_timeout = timeout;
    }

    /// Becomes a follower of `leader_id` at `term`.
    pub fn become_follower(&mut self, term: u64, leader_id: u64)
        requires
            old(self).r.min_election_timeout < old(self).r.max_election_timeout,
        ensures
            final(self)@ == (RaftView {
                r: old(self).r.as_follower(
                    term,
                    leader_id,
                    final(self).r.randomized_election_timeout,
                ),
                ..old(self)@
            }),
            final(self).r.timeout_in_range(),
    {
        self.reset_term(term);
        self.r.state = StateRole::Follower;
        self.r.leader_id = leader_id;
    }

    /// Becomes a candidate: the term grows by one and the node votes for
    /// itself. A leader never does this.
    pub fn become_candidate(&mut self)
        requires
            old(self).r.state != StateRole::Leader,
            old(self).r.term < u64::MAX,
            old(self).r.min_election_timeout < old(self).r.max_election_timeout,
        ensures
            final(self)@ == (RaftView {
                r: old(self).r.as_candidate(final(self).r.randomized_election_timeout),
                ..old(self)@
            }),
            final(self).r.timeout_in_range(),
            final(self).r.term == old(self).r.term + 1,
            final(self).r.vote == old(self).r.id,
    {
        let term = self.r.term + 1;
        self.reset_term(term);
        let id = self.r.id;
        self.r.vote = id;
        self.r.state = StateRole::Candidate;
    }

    /// Becomes a pre-candidate, which changes the role and forgets the
    /// leader, and nothing else: the term and the vote stay.
    pub fn become_pre_candidate(&mut self)
        requires
            old(self).r.state != StateRole::Leader,
        ensures
            final(self)@ == (RaftView { r: old(self).r.as_pre_candidate(), ..old(self)@ }),
    {
        self.r.state = StateRole::PreCandidate;
        self.r.leader_id = INVALID_ID;
    }

    /// Becomes the leader of the current term.
    pub fn become_leader(&mut self)
        requires
            old(self).r.min_election_timeout < old(self).r.max_election_timeout,
        ensures
            final(self)@ == (RaftView {
                r: old(self).r.as_leader(final(self).r.randomized_election_timeout),
                ..old(self)@
            }),
            final(self).r.timeout_in_range(),
    {
        let term = self.r.term;
        self.reset_term(term);
        self.r.state = StateRole::Leader;
        self.r.leader_id = self.r.id;
        self.r.heartbeat_elapsed = 0;
    }

    /// Queues one copy of `template` for each peer, addressed to it.
    pub fn broadcast(&mut self, template: Message)
        ensures
            final(self)@.r == old(self)@.r,
            final(self)@.prs == old(self)@.prs,
            extends_by_broadcast(old(self)@.msgs, final(self)@.msgs, old(self)@.peers(), template),
    {
        let self_id = self.r.id;
        let ghost before = self.msg@;
        send_to_each(&mut self.msg, &self.prs.conf.voters.incoming.voters, None, self_id, template);
        let ghost between = self.msg@;
        send_to_each(
            &mut self.msg,
            &self.prs.conf.voters.outgoing.voters,
            Some(&self.prs.conf.voters.incoming.voters),
            self_id,
            template,
        );
        proof {
            let incoming = self.prs@.conf.incoming;
            let outgoing = self.prs@.conf.outgoing;
            let first = incoming.difference(Set::empty()).remove(self_id);
            let second = outgoing.difference(incoming).remove(self_id);
            lemma_broadcast_twice(before, between, self.msg@, first, second, template);
            assert(first.union(second) =~= old(self)@.peers());
        }
    }

    /// Records the ballot of `from` and says how the election stands.
    pub fn poll(&mut self, from: u64, _m_t: MessageType, vote: bool) -> (result: VoteResult)
        ensures
            final(self)@ == old(self)@.polled(from, vote),
            result == final(self)@.prs.vote_result(),
    {
        self.prs.record_vote(from, vote);
        let (_granted, _rejected, result) = self.prs.tally_votes();
        result
    }

    /// Campaigns for the votes of the peers.
    pub fn campaign(&mut self, kind: CampaignType)
        requires
            old(self).wf(),
            old(self).r.state != StateRole::Leader,
            old(self).r.term < u64::MAX,
        ensures
            final(self).wf(),
            campaign_post(old(self)@, kind, final(self)@),
        decreases (if kind == CampaignType::PreElection {
            1nat
        } else {
            0nat
        }),
    {
        let ghost pre = self@;
        let (vote_msg, term) = if kind == CampaignType::PreElection {
            self.become_pre_candidate();
            // Pre-vote requests are sent for the next term, which is never adopted
            // before the trial is won.
            (MessageType::MsgRequestPreVote, self.r.term + 1)
        } else {
            self.become_candidate();
            (MessageType::MsgRequestVote, self.r.term)
        };
        let self_id = self.r.id;
        let request = Message {
            msg_type: vote_msg,
            to: INVALID_ID,
            from: self_id,
            term,
            reject: false,
            context: if kind == CampaignType::Transfer {
                Some(CampaignType::Transfer)
            } else {
                None
            },
        };
        self.broadcast(request);
        self.prs.reset_votes();
        let answer = if kind == CampaignType::PreElection {
            MessageType::MsgRequestPreVoteResponse
        } else {
            MessageType::MsgRequestVoteResponse
        };
        let result = self.poll(self_id, answer, true);
        assert(self@.prs == pre.own_ballot());
        if result == VoteResult::Won {
            proof {
                lemma_ids_finite(&self.prs.conf.voters.incoming.voters);
                lemma_ids_finite(&self.prs.conf.voters.outgoing.voters);
                lemma_winner_has_no_peers(pre);
                lemma_broadcast_to_nobody(pre.msgs, self@.msgs, request);
            }
            // The node's own ballot is a quorum: it is alone.
            if kind == CampaignType::PreElection {
                let ghost between = self@;
                self.campaign(CampaignType::Election);
                proof {
                    lemma_broadcast_to_nobody(
                        between.msgs,
                        self@.msgs,
                        vote_request(between.r, CampaignType::Election),
                    );
                }
            } else {
                self.become_leader();
            }
        }
    }

    /// Starts an election, unless the node is the leader already.
    pub fn hup(&mut self, transfer_leader: bool)
        requires
            old(self).wf(),
            old(self).r.term < u64::MAX,
        ensures
            final(self).wf(),
            hup_post(old(self)@, transfer_leader, final(self)@),
    {
        if self.r.state == StateRole::Leader {
            return;
        }
        if transfer_leader {
            self.campaign(CampaignType::Transfer);
        } else {
            self.campaign(CampaignType::Election);
        }
    }

    /// What the term of `msg` asks of this node.
    pub fn check_term(&self, msg: &Message) -> (check: TermCheck)
        ensures
            check == term_check(self.r, *msg),
    {
        if msg.term == 0 {
            // Local message
            TermCheck::Proceed
        } else if msg.term > self.r.term {
            if msg.msg_type == MessageType::MsgRequestVote || msg.msg_type
                == MessageType::MsgRequestPreVote {
                let force = match msg.context {
                    Some(CampaignType::Transfer) => true,
                    _ => false,
                };
                // a period of time during which it expects the leader to send heartbeats
                // only when
                // 1/ The node has a valid leader (self.leader_id != INVALID_ID).
                // 2/ The node is still within the timeout period for hearing from the leader.
                let in_lease = self.r.leader_id != INVALID_ID && self.r.election_elapsed
                    < self.r.election_timeout;
                if !force && in_lease {
                    // if a server receives RequestVote request within the minimum election
                    // timeout of hearing from a current leader, it does not update its term
                    // or grant its vote
                    //
                    // This is included in the 3rd concern for Joint Consensus, where if another
                    // peer is removed from the cluster it may try to hold elections and disrupt
                    // stability.
                    return TermCheck::Ignore;
                }
            }
            if msg.msg_type == MessageType::MsgRequestPreVote || (msg.msg_type
                == MessageType::MsgRequestPreVoteResponse && !msg.reject) {
                // For a pre-vote request:
                // Never change our term in response to a pre-vote request.
                //
                // For a pre-vote response with pre-vote granted:
                // We send pre-vote requests with a term in our future. If the
                // pre-vote is granted, we will increment our term when we get a
                // quorum. If it is not, the term comes from the node that
                // rejected our vote so we should become a follower at the new
                // term.
                TermCheck::Proceed
            } else if msg.msg_type == MessageType::MsgHeartbeat {
                TermCheck::Adopt { leader_id: msg.from }
            } else {
                TermCheck::Adopt { leader_id: INVALID_ID }
            }
        } else if msg.term < self.r.term {
            // A message from a leader with a lower term.
            // There are two possible cases:
            // 1/ Because of delay in network that make the msg arrive late
            // 2/ Because of network partition this node has advanced its term
            // If check_quorum is set, answer the old leader, which then steps down.
            TermCheck::Stale {
                reply: self.r.check_quorum && (msg.msg_type == MessageType::MsgHeartbeat
                    || msg.msg_type == MessageType::MsgAppend),
            }
        } else {
            TermCheck::Proceed
        }
    }

    /// This function incharge of steps up or down of Raft node.
    /// Always call this steps when receive a message.
    pub fn step(&mut self, msg: Message) -> (res: Result<(), Error>)
        requires
            old(self).wf(),
            old(self).r.term < u64::MAX,
            msg.term < u64::MAX,
        ensures
            res is Ok,
            final(self).wf(),
            step_post(old(self)@, msg, final(self)@),
            final(self).r.term >= old(self).r.term,
    {
        let ghost pre = self@;
        // Handle message term
        match self.check_term(&msg) {
            TermCheck::Proceed => {},
            TermCheck::Ignore => {
                return Ok(());
            },
            TermCheck::Adopt { leader_id } => {
                self.become_follower(msg.term, leader_id);
            },
            TermCheck::Stale { reply } => {
                if reply {
                    let mut to_send = new_message(
                        msg.from,
                        MessageType::MsgAppendResponse,
                        Some(self.r.id),
                    );
                    to_send.term = self.r.term;
                    self.r.send(to_send, &mut self.msg);
                }
                return Ok(());
            },
        }
        let ghost between = self@;
        match msg.msg_type {
            MessageType::MsgHup => self.hup(false),
            _ => match self.r.state {
                StateRole::PreCandidate | StateRole::Candidate => self.step_candidate(msg)?,
                StateRole::Follower => self.step_follower(msg)?,
                StateRole::Leader => self.step_leader(msg)?,
            },
        }
        proof {
            if term_check(pre.r, msg) is Adopt {
                // The handler does not depend on the timeout that was drawn on the
                // way to it.
                let adopted = RaftView {
                    r: pre.r.as_follower(
                        msg.term,
                        term_check(pre.r, msg)->leader_id,
                        self@.r.randomized_election_timeout,
                    ),
                    ..pre
                };
                assert(adopted.own_ballot() == between.own_ballot());
                assert(dispatch_post(adopted, msg, self@));
            }
        }
        Ok(())
    }

    /// Lets one unit of time pass: the election clock of a follower or
    /// candidate, the heartbeat clock of a leader. Returns whether output
    /// was produced: whether anything was put on the outbound queue for the
    /// driver to take.
    pub fn tick(&mut self) -> (output: bool)
        requires
            old(self).wf(),
            old(self).r.term < u64::MAX,
        ensures
            final(self).wf(),
            tick_post(old(self)@, final(self)@, output),
            output == (final(self)@.msgs.len() > old(self)@.msgs.len()),
            final(self).r.term >= old(self).r.term,
    {
        match self.r.state {
            StateRole::Follower | StateRole::PreCandidate | StateRole::Candidate => {
                self.tick_election()
            },
            StateRole::Leader => self.tick_heartbeat(),
        }
    }

    /// Advances the election clock. Where it reaches the randomized election
    /// timeout it starts over, and the node signals itself to start an
    /// election. Returns whether anything was put on the outbound queue.
    pub fn tick_election(&mut self) -> (output: bool)
        requires
            old(self).wf(),
            old(self).r.term < u64::MAX,
        ensures
            final(self).wf(),
            tick_election_post(old(self)@, final(self)@, output),
            output == (final(self)@.msgs.len() > old(self)@.msgs.len()),
    {
        self.r.election_elapsed += 1;
        if !self.pass_election_timeout() {
            return false;
        }
        self.r.election_elapsed = 0;
        let queued = self.msg.len();
        let m = new_message(INVALID_ID, MessageType::MsgHup, Some(self.r.id));
        let _ = self.step(m);
        self.msg.len() > queued
    }

    /// tick_heartbeat is run by leaders to send a heartbeat to each peer after
    /// self.heartbeat_timeout. Returns whether anything was put on the
    /// outbound queue.
    pub fn tick_heartbeat(&mut self) -> (output: bool)
        requires
            old(self).wf(),
        ensures
            final(self).wf(),
            tick_heartbeat_post(old(self)@, final(self)@, output),
            output == (final(self)@.msgs.len() > old(self)@.msgs.len()),
    {
        self.r.heartbeat_elapsed += 1;
        if self.r.heartbeat_elapsed < self.r.heartbeat_timeout {
            return false;
        }
        self.r.heartbeat_elapsed = 0;
        let queued = self.msg.len();
        let mut beat = new_message(INVALID_ID, MessageType::MsgHeartbeat, Some(self.r.id));
        beat.term = self.r.term;
        self.broadcast(beat);
        self.msg.len() > queued
    }

    /// The handler of a candidate or pre-candidate: it counts the answers to
    /// its request and acts on the outcome.
    pub fn step_candidate(&mut self, msg: Message) -> (res: Result<(), Error>)
        requires
            old(self).wf(),
            old(self).r.term < u64::MAX,
        ensures
            res is Ok,
            final(self).wf(),
            step_candidate_post(old(self)@, msg, final(self)@),
    {
        let awaited = if self.r.state == StateRole::PreCandidate {
            MessageType::MsgRequestPreVoteResponse
        } else {
            MessageType::MsgRequestVoteResponse
        };
        if msg.msg_type != awaited {
            return Ok(());
        }
        match self.poll(msg.from, msg.msg_type, !msg.reject) {
            VoteResult::Won => {
                if self.r.state == StateRole::PreCandidate {
                    self.campaign(CampaignType::Election);
                } else {
                    self.become_leader();
                }
            },
            VoteResult::Lost => {
                let term = self.r.term;
                self.become_follower(term, INVALID_ID);
            },
            VoteResult::Pending => {},
        }
        Ok(())
    }

    /// The handler of a leader. It reads no message yet.
    pub fn step_leader(&mut self, _msg: Message) -> (res: Result<(), Error>)
        ensures
            res is Ok,
            *final(self) == *old(self),
    {
        Ok(())
    }

    /// The handler of a follower. It reads no message yet.
    pub fn step_follower(&mut self, _msg: Message) -> (res: Result<(), Error>)
        ensures
            res is Ok,
            *final(self) == *old(self),
    {
        Ok(())
    }

    /// Whether the election clock has reached the randomized election
    /// timeout.
    pub fn pass_election_timeout(&self) -> (passed: bool)
        ensures
            passed == (self.r.election_elapsed >= self.r.randomized_election_timeout),
    {
        self.r.election_elapsed >= self.r.randomized_election_timeout
    }
}

} // verus!
