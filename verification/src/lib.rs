//! The decision core of one replica in a Raft-style consensus group: quorum
//! arithmetic, the ballot box and membership of the progress tracker, the
//! compilation of membership changes, and the role and term state machine.

pub mod confchange;
pub mod config;
pub mod error;
pub mod message;
pub mod node;
pub mod quorum;
pub mod raft;
pub mod rng;
pub mod tracker;

pub use crate::error::Error;
pub use crate::quorum::joint::Configuration as JointConfig;
pub use crate::quorum::majority::Configuration as MajorityConfig;
