//! The shape of an account as an instruction sees it.
//!
//! An account is an opaque record owned by the host runtime; the wrapper
//! reads nothing of its contents.  What it does read — the account's
//! address, its owner, and the transaction-level flags — is held here as
//! plain values.

use vstd::prelude::*;

verus! {

/// What an instruction sees of one account handed to it.
#[derive(Clone, Copy, Debug, PartialEq, Eq)]
pub struct AccountView {
    /// The account's address.
    pub key: [u8; 32],
    /// The program that owns the account.
    pub owner: [u8; 32],
    /// Whether the account signed the transaction.
    pub is_signer: bool,
    /// Whether the transaction may write to the account.
    pub is_writable: bool,
    /// Whether the account holds an executable program.
    pub executable: bool,
}

} // verus!
