use vstd::prelude::*;
use crate::addr::Address;

verus! {

/// Why the cluster model rejects a single instruction.
#[derive(Clone, Copy, PartialEq, Eq, Structural, Debug)]
pub enum TxError {
    /// The named account does not exist on the ledger.
    UnknownAccount(Address),
    /// The named account cannot pay what the instruction asks of it.
    InsufficientFunds(Address),
    /// Crediting the named account would push its balance past `u64::MAX`.
    BalanceOverflow(Address),
    /// The account to be created already exists.
    AccountExists(Address),
    /// A close names the closed account itself as the recipient.
    InvalidClose,
    /// A token-program instruction addresses something else than the
    /// token program.
    IncorrectProgramId,
    /// The instruction's account list does not fit its operation.
    BadInstruction,
}

/// Why a submitted transaction plan is rejected as a whole.
#[derive(Clone, Copy, PartialEq, Eq, Structural, Debug)]
pub enum SubmitError {
    /// The named address must sign but is not in the plan's signer set.
    MissingSigner(Address),
    /// Fee charging or one of the instructions failed; nothing was applied.
    Failed(TxError),
}

/// The top-level error taxonomy a run of a client program ends with.
#[derive(Clone, Debug)]
pub enum RunError {
    /// A key file was missing, unreadable or malformed.
    IoError(String),
    /// The cluster could not be reached or rejected a query.
    RpcError(String),
    /// The cluster rejected the submitted transaction.
    SubmissionError(SubmitError),
}

/// The process exit code a run ends with: 0 for success, 1 for any error.
pub fn exit_code(r: &Result<(), RunError>) -> (c: i32)
    ensures
        (c == 0) <==> (r is Ok),
        c == 0 || c == 1,
{
    match r {
        Ok(_) => 0,
        Err(_) => 1,
    }
}

} // verus!
