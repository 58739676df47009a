//! A thin, verified wrapper around an on-chain fungible-token program.
//!
//! The library models the accounts that each instruction of the wrapper
//! receives, checks the shape constraints the wrapper imposes on them
//! (mutability, signer-ness, ownership, program identity), and builds the
//! exact instruction that is forwarded to the token program by
//! cross-program invocation.  Performing the invocation is the host
//! runtime's job and lies outside the library.

pub mod accounts;
pub mod error;
pub mod ids;
pub mod instruction;
pub mod program;
