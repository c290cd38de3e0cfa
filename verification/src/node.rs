use crate::config::Config;
use crate::error::Error;
use crate::raft::transitions::{tick_post, RaftView};
use crate::raft::{Raft, RaftCore};
use crate::tracker::empty_tracker;
use vstd::prelude::*;

verus! {

/// Node server
pub struct Node {
    pub raft: Raft,
}

impl Node {
    /// Create a new node given some [`Config`]. A record that is not valid
    /// is refused, with the first rule that it breaks. A valid record starts
    /// the node, unless the operating system gives no seed for the election
    /// jitter.
    pub fn new(config: &Config) -> (res: Result<Self, Error>)
        ensures
            !config.valid() ==> config.defect() is Some && res == Err::<Self, Error>(
                Error::ConfigInvalid(config.defect()->0),
            ),
            config.valid() ==> res is Ok || res == Err::<Self, Error>(Error::NoEntropy),
            res matches Ok(node) ==> {
                &&& node.raft.wf()
                &&& node.raft@ == (RaftView {
                    r: RaftCore::initial(*config, node.raft.r.randomized_election_timeout),
                    prs: empty_tracker(),
                    msgs: Seq::empty(),
                })
            },
    {
        match Raft::new(config) {
            Ok(r) => Ok(Node { raft: r }),
            Err(e) => Err(e),
        }
    }

    /// Whether there is anything in the outbound queue for the driver to
    /// take.
    pub fn has_ready(&self) -> (ready: bool)
        ensures
            ready == (self.raft@.msgs.len() > 0),
    {
        let raft = &self.raft;
        if !raft.msg.is_empty() {
            return true;
        }
        false
    }

    /// Lets one unit of time pass. Returns whether output was produced.
    pub fn tick(&mut self) -> (output: bool)
        requires
            old(self).raft.wf(),
            old(self).raft.r.term < u64::MAX,
        ensures
            final(self).raft.wf(),
            tick_post(old(self).raft@, final(self).raft@, output),
            output == (final(self).raft@.msgs.len() > old(self).raft@.msgs.len()),
    {
        self.raft.tick()
    }
}

} // verus!
