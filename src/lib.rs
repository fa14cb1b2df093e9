//! Instruction building and account handling for an access-controller program and a
//! report-verifier program on a Solana-style ledger.
//!
//! The library turns each administrative operation into an exact [`Instruction`]
//! (program id, ordered account references, payload bytes), decodes account data,
//! and plans the multi-step growth of the verifier account. Signing and sending
//! transactions is left to the caller.
pub mod access_controller;
pub mod address;
pub mod encoding;
pub mod instruction;
pub mod verifier_admin;

pub use access_controller::{AccessControllerClient, AccessControllerState, StateDecodeError};
pub use address::Address;
pub use instruction::{AccountMeta, Instruction};
pub use verifier_admin::{VerifierAdminClient, VerifyError};
