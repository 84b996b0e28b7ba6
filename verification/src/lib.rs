//! Custody rules for an intent escrow: user capital is held against an
//! intent from deposit until it is either released to an execution
//! destination (by the settlement contract) or refunded to its depositor
//! after the deadline.
//!
//! The library is the escrow's state machine. Each operation takes the
//! current state and the request, decides the outcome, updates the state and
//! hands back the token movement the host must perform. Authorisation,
//! ledger storage and the token calls themselves belong to the host.

pub mod types;
pub mod model;
pub mod escrow;
pub mod laws;

pub use types::{Constraints, Error, Intent, Operation, Payout, Status, Transfer};
pub use escrow::IntentEscrow;
