//! What a command is told about the block it runs in and about its caller.

use crate::timestamp::Timestamp;
use vstd::prelude::*;

verus! {

/// The block in which a command runs.
#[derive(Clone, Copy, Debug, PartialEq, Eq, Structural)]
pub struct BlockInfo {
    /// The block time: the only clock that the relay reads.
    pub time: Timestamp,
}

/// The environment of a command.
#[derive(Clone, Copy, Debug, PartialEq, Eq, Structural)]
pub struct Env {
    pub block: BlockInfo,
}

/// The caller of a command, already authenticated.
#[derive(Clone, Debug, PartialEq, Eq)]
pub struct MessageInfo {
    pub sender: String,
}

} // verus!
