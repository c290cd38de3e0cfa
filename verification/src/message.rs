use crate::config::INVALID_ID;
use vstd::prelude::*;

verus! {

/// What a message asks for or reports.
#[derive(Clone, Copy, Debug, PartialEq, Eq, Structural)]
pub enum MessageType {
    /// The local signal to start an election.
    MsgHup,
    /// The local signal for a leader to send its heartbeats.
    MsgBeat,
    /// A proposal to append to the log.
    MsgPropose,
    /// Log entries that a leader replicates.
    MsgAppend,
    /// The acknowledgment of replicated log entries.
    MsgAppendResponse,
    /// A request for a vote.
    MsgRequestVote,
    /// The answer to a request for a vote.
    MsgRequestVoteResponse,
    /// A snapshot that a leader sends in place of log entries.
    MsgSnapshot,
    /// The heartbeat of a leader.
    MsgHeartbeat,
    /// The answer to a heartbeat.
    MsgHeartbeatResponse,
    /// The report that a peer cannot be reached.
    MsgUnreachable,
    /// The report of how the sending of a snapshot ended.
    MsgSnapStatus,
    /// The local signal for a leader to check that a quorum is alive.
    MsgCheckQuorum,
    /// The request to hand leadership to another node.
    MsgTransferLeader,
    /// The request to start an election at once.
    MsgTimeoutNow,
    /// A request to read at a consistent index.
    MsgReadIndex,
    /// The answer to a request to read.
    MsgReadIndexResp,
    /// A request for a trial vote, which changes no term.
    MsgRequestPreVote,
    /// The answer to a request for a trial vote.
    MsgRequestPreVoteResponse,
}

/// Why a campaign is held. A request for a vote carries it as its context.
#[derive(Clone, Copy, Debug, PartialEq, Eq, Structural)]
pub enum CampaignType {
    /// The trial election that comes before a real one and changes no term.
    PreElection,
    /// A normal, time-based election.
    Election,
    /// An election forced by a transfer of leadership.
    Transfer,
}

/// The marker of a trial election on the wire: `CampaignPreElection`.
pub open spec fn campaign_pre_election() -> Seq<u8> {
    seq![
        67u8, 97u8, 109u8, 112u8, 97u8, 105u8, 103u8, 110u8, 80u8, 114u8, 101u8, 69u8, 108u8,
        101u8, 99u8, 116u8, 105u8, 111u8, 110u8,
    ]
}

/// The marker of a normal election on the wire: `CampaignElection`.
pub open spec fn campaign_election() -> Seq<u8> {
    seq![
        67u8, 97u8, 109u8, 112u8, 97u8, 105u8, 103u8, 110u8, 69u8, 108u8, 101u8, 99u8, 116u8,
        105u8, 111u8, 110u8,
    ]
}

/// The marker of a leader transfer on the wire: `CampaignTransfer`.
pub open spec fn campaign_transfer() -> Seq<u8> {
    seq![
        67u8, 97u8, 109u8, 112u8, 97u8, 105u8, 103u8, 110u8, 84u8, 114u8, 97u8, 110u8, 115u8,
        102u8, 101u8, 114u8,
    ]
}

/// Whether `bytes` holds exactly `marker`.
fn same_bytes(bytes: &[u8], marker: &[u8]) -> (same: bool)
    ensures
        same == (bytes@ == marker@),
{
    if bytes.len() != marker.len() {
        return false;
    }
    let mut i: usize = 0;
    while i < bytes.len()
        invariant
            bytes.len() == marker.len(),
            i <= bytes.len(),
            forall|j: int| 0 <= j < i ==> bytes[j] == marker[j],
        decreases bytes.len() - i,
    {
        if bytes[i] != marker[i] {
            return false;
        }
        i += 1;
    }
    assert(bytes@ =~= marker@);
    true
}

impl CampaignType {
    /// The marker that stands for this kind of campaign on the wire.
    pub open spec fn spec_marker(self) -> Seq<u8> {
        match self {
            CampaignType::PreElection => campaign_pre_election(),
            CampaignType::Election => campaign_election(),
            CampaignType::Transfer => campaign_transfer(),
        }
    }

    /// The campaign, if any, that the context bytes of a message stand for.
    pub open spec fn spec_from_bytes(bytes: Seq<u8>) -> Option<CampaignType> {
        if bytes == campaign_pre_election() {
            Some(CampaignType::PreElection)
        } else if bytes == campaign_election() {
            Some(CampaignType::Election)
        } else if bytes == campaign_transfer() {
            Some(CampaignType::Transfer)
        } else {
            None
        }
    }

    /// The marker that stands for this kind of campaign on the wire.
    pub fn marker(self) -> (bytes: Vec<u8>)
        ensures
            bytes@ == self.spec_marker(),
    {
        let bytes = match self {
            CampaignType::PreElection => vec![
                67u8, 97u8, 109u8, 112u8, 97u8, 105u8, 103u8, 110u8, 80u8, 114u8, 101u8, 69u8,
                108u8, 101u8, 99u8, 116u8, 105u8, 111u8, 110u8,
            ],
            CampaignType::Election => vec![
                67u8, 97u8, 109u8, 112u8, 97u8, 105u8, 103u8, 110u8, 69u8, 108u8, 101u8, 99u8,
                116u8, 105u8, 111u8, 110u8,
            ],
            CampaignType::Transfer => vec![
                67u8, 97u8, 109u8, 112u8, 97u8, 105u8, 103u8, 110u8, 84u8, 114u8, 97u8, 110u8,
                115u8, 102u8, 101u8, 114u8,
            ],
        };
        bytes
    }

    /// Reads the context bytes of a message: the campaign whose marker they
    /// are, or nothing where they are no marker.
    pub fn from_bytes(bytes: &[u8]) -> (kind: Option<CampaignType>)
        ensures
            kind == Self::spec_from_bytes(bytes@),
    {
        let pre_election = CampaignType::PreElection.marker();
        let election = CampaignType::Election.marker();
        let transfer = CampaignType::Transfer.marker();
        if same_bytes(bytes, pre_election.as_slice()) {
            Some(CampaignType::PreElection)
        } else if same_bytes(bytes, election.as_slice()) {
            Some(CampaignType::Election)
        } else if same_bytes(bytes, transfer.as_slice()) {
            Some(CampaignType::Transfer)
        } else {
            None
        }
    }
}

/// Every kind of campaign is read back from its own marker.
pub proof fn lemma_marker_round_trip(kind: CampaignType)
    ensures
        CampaignType::spec_from_bytes(kind.spec_marker()) == Some(kind),
{
}

/// What is exchanged between the replicas, as far as this core reads it.
#[derive(Clone, Copy, Debug, PartialEq, Eq, Structural)]
pub struct Message {
    /// What the message asks for or reports.
    pub msg_type: MessageType,
    /// The replica that the message is for.
    pub to: u64,
    /// The replica that sent the message.
    pub from: u64,
    /// The term of the sender; zero for a message that the replica sends itself.
    pub term: u64,
    /// Whether an answer declines what was asked.
    pub reject: bool,
    /// The campaign that a request for a vote belongs to.
    pub context: Option<CampaignType>,
}

/// A message of the given type for `to`, from `from` where one is given, with
/// nothing else set.
pub fn new_message(to: u64, field_type: MessageType, from: Option<u64>) -> (m: Message)
    ensures
        m == (Message {
            msg_type: field_type,
            to,
            from: match from {
                Some(id) => id,
                None => INVALID_ID,
            },
            term: 0,
            reject: false,
            context: None,
        }),
{
    let mut m = Message {
        msg_type: field_type,
        to,
        from: INVALID_ID,
        term: 0,
        reject: false,
        context: None,
    };
    if let Some(id) = from {
        m.from = id;
    }
    m
}

} // verus!
