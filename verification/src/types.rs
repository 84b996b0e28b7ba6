use vstd::prelude::*;

verus! {

/// Where an intent stands in its life.
#[derive(Clone, Copy, PartialEq, Eq, Debug, Structural)]
pub enum Status {
    /// Holding funds, awaiting settlement or expiry.
    Funded,
    /// Settled: funds released to the execution destination.
    Released,
    /// Expired: funds returned to the depositor.
    Refunded,
}

/// Why an operation was refused.
#[derive(Clone, Copy, PartialEq, Eq, Debug, Structural)]
pub enum Error {
    AlreadyInitialised,
    NotInitialised,
    ZeroAmount,
    DeadlineInThePast,
    DeadlineNotPassed,
    IntentAlreadyExists,
    IntentNotFunded,
    AmountExceedsEscrow,
}

/// The bounds an execution must satisfy.
///
/// Stored on deposit and read by settlement. The escrow does not interpret
/// them, except for the deadline, which decides when a refund is allowed.
#[derive(Debug, PartialEq, Eq)]
pub struct Constraints {
    pub token_in: String,
    pub token_out: String,
    /// Maximum acceptable slippage in basis points. 100 = 1%.
    pub max_slippage_bps: u32,
    /// Unix seconds. After this, anyone may trigger a refund.
    pub deadline: u64,
}

impl Clone for Constraints {
    fn clone(&self) -> (res: Self)
        ensures
            res == *self,
    {
        Constraints {
            token_in: self.token_in.clone(),
            token_out: self.token_out.clone(),
            max_slippage_bps: self.max_slippage_bps,
            deadline: self.deadline,
        }
    }
}

/// One escrowed intent. Addresses are held by their strkey text.
#[derive(Debug, PartialEq, Eq)]
pub struct Intent {
    pub depositor: String,
    pub token: String,
    pub amount: i128,
    pub constraints: Constraints,
    pub status: Status,
}

impl Clone for Intent {
    fn clone(&self) -> (res: Self)
        ensures
            res == *self,
    {
        Intent {
            depositor: self.depositor.clone(),
            token: self.token.clone(),
            amount: self.amount,
            constraints: self.constraints.clone(),
            status: self.status,
        }
    }
}

/// A token movement that an accepted operation asks the host to perform.
/// The escrow's own address is the host's to know, so it is left implicit.
#[derive(Debug, PartialEq, Eq)]
pub enum Transfer {
    /// Pull `amount` of `token` from `from` into the escrow.
    IntoEscrow { token: String, from: String, amount: i128 },
    /// Pay `amount` of `token` out of the escrow to `to`.
    OutOfEscrow { token: String, to: String, amount: i128 },
}

/// What an accepted release pays out of the escrow: the released amount to
/// the destination, and what is left of the escrowed amount back to the
/// depositor, when anything is left.
#[derive(Debug, PartialEq, Eq)]
pub struct Payout {
    pub release: Transfer,
    pub remainder: Option<Transfer>,
}

/// A request whose authorisation the host must check before it is decided.
#[derive(Debug, PartialEq, Eq)]
pub enum Operation {
    Initialise,
    Deposit { depositor: String },
    Release,
    Refund,
}

} // verus!
