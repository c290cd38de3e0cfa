//! Quorum decisions: a plain majority, and the joint majority of two voter
//! sets that a membership change passes through.

pub mod joint;
pub mod majority;
