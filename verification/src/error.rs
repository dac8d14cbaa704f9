//! The ways in which a command or a query is turned down.

use vstd::prelude::*;

verus! {

/// Why a command or a query was rejected. Every rejection leaves the stored
/// state as it was and sends nothing.
#[derive(Clone, Copy, Debug, PartialEq, Eq, Structural)]
pub enum ContractError {
    /// The controller state was read before it was initialised.
    NotFound {},
    /// The caller is not the recorded owner.
    Unauthorized {},
    /// A swap for the same deposit and trade count was accepted less than the
    /// retry delay ago.
    AllPending {},
    /// An address text does not denote twenty bytes in hexadecimal.
    MalformedInput {},
}

} // verus!
