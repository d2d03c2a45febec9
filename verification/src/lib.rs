//! Client-side core of a multi-party escrow protocol hosted on a remote
//! ledger.  The library holds the protocol-facing logic: the account layout
//! codec, the state-machine guard that decides which action is legal in which
//! state, the instruction builders that fix the wire contract with the
//! on-chain program, the deterministic vault-address derivation, and the
//! dry-run gate of the submission pipeline.  All remote I/O (account reads,
//! signing, submission) lives outside this crate.

pub mod state;
pub mod codec;
pub mod instruction;
pub mod vault;
pub mod pipeline;
