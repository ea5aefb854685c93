use vstd::prelude::*;

verus! {

/// Why a ledger operation was refused. The ledger is left unchanged on
/// every error.
#[derive(Debug, Clone, Copy, PartialEq, Eq, Structural)]
pub enum PSP37Error {
    /// The token id has no current owner.
    TokenNotExists,
    /// The caller may not move the token.
    NotApproved,
    /// The source's per-id balance is smaller than the value moved.
    InsufficientBalance,
}

} // verus!
