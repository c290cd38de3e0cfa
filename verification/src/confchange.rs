//! Changes of membership: the single operations, the description of a
//! target membership, and how the one is compiled from the other.

pub mod changer;
pub mod restore;

use vstd::prelude::*;

verus! {

/// What a single change does to the membership of one node.
#[derive(Clone, Copy, Debug, PartialEq, Eq, Structural)]
pub enum ConfChangeType {
    /// The node becomes a voter.
    AddNode,
    /// The node leaves the configuration.
    RemoveNode,
    /// The node becomes a learner.
    AddLearnerNode,
}

/// ConfChangeSingle is an individual configuration change operation.
#[derive(Clone, Copy, Debug, PartialEq, Eq, Structural)]
pub struct ConfChangeSingle {
    pub change_type: ConfChangeType,
    pub node_id: u64,
}

/// The description of a membership: the four lists of ids by role.
#[derive(Debug, PartialEq, Eq)]
pub struct ConfState {
    /// The voters of the incoming configuration.
    pub voters: Vec<u64>,
    /// The learners.
    pub learners: Vec<u64>,
    /// The voters in the outgoing config. If not empty the node is in joint consensus.
    pub voters_outgoing: Vec<u64>,
    /// The nodes that will become learners when the outgoing config is removed.
    pub learners_next: Vec<u64>,
}

impl Clone for ConfState {
    fn clone(&self) -> (copy: Self)
        ensures
            copy.voters@ == self.voters@,
            copy.learners@ == self.learners@,
            copy.voters_outgoing@ == self.voters_outgoing@,
            copy.learners_next@ == self.learners_next@,
    {
        ConfState {
            voters: self.voters.clone(),
            learners: self.learners.clone(),
            voters_outgoing: self.voters_outgoing.clone(),
            learners_next: self.learners_next.clone(),
        }
    }
}

/// Creates a `ConfChangeSingle`.
pub fn new_conf_change_single(node_id: u64, ty: ConfChangeType) -> (single: ConfChangeSingle)
    ensures
        single == (ConfChangeSingle { change_type: ty, node_id }),
{
    ConfChangeSingle { change_type: ty, node_id }
}

} // verus!
