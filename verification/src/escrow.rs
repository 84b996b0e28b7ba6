//! The executable escrow.
use vstd::prelude::*;
use vstd::hash_map::StringHashMap;
use crate::types::{Constraints, Error, Intent, Operation, Payout, Status, Transfer};
use crate::model::{
    EscrowView, authoriser_outcome, deposit_outcome, release_traps, get_intent_outcome, initialise_outcome, refund_outcome,
    release_outcome, settlement_outcome, with_status,
};

verus! {

/// The escrow's state: the settlement contract it is bound to and the
/// intents it holds, keyed by intent id.
pub struct IntentEscrow {
    settlement: Option<String>,
    intents: StringHashMap<Intent>,
}

impl View for IntentEscrow {
    type V = EscrowView;

    closed spec fn view(&self) -> EscrowView {
        EscrowView { settlement: self.settlement, intents: self.intents@ }
    }
}

impl IntentEscrow {
    /// A fresh escrow: not yet bound to a settlement contract, holding nothing.
    pub fn new() -> (res: Self)
        ensures
            res@.settlement is None,
            res@.intents == Map::<Seq<char>, Intent>::empty(),
    {
        IntentEscrow { settlement: None, intents: StringHashMap::new() }
    }

    /// Put back an intent record as it was kept in ledger storage under its
    /// id, so that the state a request can touch is rebuilt before the
    /// request is decided. Only an id the state does not hold yet can be
    /// restored, so no accepted intent is ever overwritten.
    pub fn restore_intent(&mut self, intent_id: String, intent: Intent)
        requires
            !old(self)@.intents.contains_key(intent_id@),
        ensures
            final(self)@ == (EscrowView {
                settlement: old(self)@.settlement,
                intents: old(self)@.intents.insert(intent_id@, intent),
            }),
    {
        self.intents.insert(intent_id, intent);
    }

    /// Bind the escrow to its settlement contract.
    ///
    /// Callable once. A rotatable settlement address would let whoever can
    /// rotate it redirect every escrow, which would make them the real
    /// custodian.
    pub fn initialise(&mut self, settlement: String) -> (res: Result<(), Error>)
        ensures
            (final(self)@, res) == initialise_outcome(old(self)@, settlement),
    {
        if self.settlement.is_some() {
            return Err(Error::AlreadyInitialised);
        }
        self.settlement = Some(settlement);
        Ok(())
    }

    /// Lock tokens against an intent, with the bounds any execution must
    /// respect. `now` is the ledger time in Unix seconds.
    ///
    /// Reuse of an intent id is rejected, so a second deposit cannot
    /// overwrite an existing depositor's claim on funds. On success the
    /// answer is the pull of `amount` from the depositor into the escrow.
    pub fn deposit(
        &mut self,
        intent_id: String,
        depositor: String,
        token: String,
        amount: i128,
        constraints: Constraints,
        now: u64,
    ) -> (res: Result<Transfer, Error>)
        ensures
            (final(self)@, res) == deposit_outcome(
                old(self)@,
                intent_id@,
                depositor,
                token,
                amount,
                constraints,
                now,
            ),
    {
        if amount <= 0 {
            return Err(Error::ZeroAmount);
        }
        if constraints.deadline <= now {
            return Err(Error::DeadlineInThePast);
        }
        if self.intents.contains_key(intent_id.as_str()) {
            return Err(Error::IntentAlreadyExists);
        }
        let transfer = Transfer::IntoEscrow { token: token.clone(), from: depositor.clone(), amount };
        let intent = Intent { depositor, token, amount, constraints, status: Status::Funded };
        self.intents.insert(intent_id, intent);
        Ok(transfer)
    }

    /// Release escrowed funds to an execution destination.
    ///
    /// Only the settlement contract may ask for this; it has validated the
    /// execution against the intent's constraints, which are not checked
    /// again here. What is not released goes back to the depositor, so a
    /// settled intent leaves nothing behind in the escrow. The intent is
    /// consumed before the transfers are handed out, so a re-entrant call
    /// finds an intent that is no longer funded.
    ///
    /// A negative amount that passes every check is one the token transfer
    /// traps on; such a release is left out here, and `release_traps` tells
    /// it apart before the call.
    pub fn release(&mut self, intent_id: String, destination: String, amount: i128) -> (res: Result<
        Payout,
        Error,
    >)
        requires
            !release_traps(old(self)@, intent_id@, amount),
        ensures
            (final(self)@, res) == release_outcome(old(self)@, intent_id@, destination, amount),
    {
        if self.settlement.is_none() {
            return Err(Error::NotInitialised);
        }
        let mut intent = match self.intents.get(intent_id.as_str()) {
            Some(i) => i.clone(),
            None => return Err(Error::IntentNotFunded),
        };
        if intent.status != Status::Funded {
            return Err(Error::IntentNotFunded);
        }
        if amount > intent.amount {
            return Err(Error::AmountExceedsEscrow);
        }
        let release = Transfer::OutOfEscrow { token: intent.token.clone(), to: destination, amount };
        let remainder = if amount < intent.amount {
            Some(
                Transfer::OutOfEscrow {
                    token: intent.token.clone(),
                    to: intent.depositor.clone(),
                    amount: intent.amount - amount,
                },
            )
        } else {
            None
        };
        intent.status = Status::Released;
        self.intents.insert(intent_id, intent);
        Ok(Payout { release, remainder })
    }

    /// Whether a release of `amount` from the intent under `intent_id` is one
    /// the host traps on: it passes every check of the escrow but its amount
    /// is negative, which the token transfer refuses.
    pub fn release_traps(&self, intent_id: String, amount: i128) -> (res: bool)
        ensures
            res == release_traps(self@, intent_id@, amount),
    {
        if self.settlement.is_none() || amount >= 0 {
            return false;
        }
        match self.intents.get(intent_id.as_str()) {
            Some(i) => i.status == Status::Funded && amount <= i.amount,
            None => false,
        }
    }

    /// Return escrowed funds to the depositor after the deadline. `now` is
    /// the ledger time in Unix seconds.
    ///
    /// Anyone may ask. The funds always go to the recorded depositor, so
    /// opening this up cannot redirect money.
    pub fn refund(&mut self, intent_id: String, now: u64) -> (res: Result<Transfer, Error>)
        ensures
            (final(self)@, res) == refund_outcome(old(self)@, intent_id@, now),
    {
        let mut intent = match self.intents.get(intent_id.as_str()) {
            Some(i) => i.clone(),
            None => return Err(Error::IntentNotFunded),
        };
        if intent.status != Status::Funded {
            return Err(Error::IntentNotFunded);
        }
        if now <= intent.constraints.deadline {
            return Err(Error::DeadlineNotPassed);
        }
        let transfer = Transfer::OutOfEscrow {
            token: intent.token.clone(),
            to: intent.depositor.clone(),
            amount: intent.amount,
        };
        intent.status = Status::Refunded;
        self.intents.insert(intent_id, intent);
        Ok(transfer)
    }

    /// Read an intent, including the constraints settlement must enforce.
    pub fn get_intent(&self, intent_id: String) -> (res: Result<Intent, Error>)
        ensures
            res == get_intent_outcome(self@, intent_id@),
    {
        match self.intents.get(intent_id.as_str()) {
            Some(i) => Ok(i.clone()),
            None => Err(Error::IntentNotFunded),
        }
    }

    /// Who must authorise `op` before it is decided: the named depositor for
    /// a deposit; the bound settlement contract for a release, which fails
    /// with NotInitialised while the escrow is unbound; nobody for
    /// initialise and refund.
    pub fn required_authoriser(&self, op: &Operation) -> (res: Result<Option<String>, Error>)
        ensures
            res == authoriser_outcome(self@, *op),
    {
        match op {
            Operation::Initialise => Ok(None),
            Operation::Deposit { depositor } => Ok(Some(depositor.clone())),
            Operation::Release => match &self.settlement {
                Some(a) => Ok(Some(a.clone())),
                None => Err(Error::NotInitialised),
            },
            Operation::Refund => Ok(None),
        }
    }

    /// The settlement contract the escrow is bound to.
    pub fn settlement(&self) -> (res: Result<String, Error>)
        ensures
            res == settlement_outcome(self@),
    {
        match &self.settlement {
            Some(a) => Ok(a.clone()),
            None => Err(Error::NotInitialised),
        }
    }
}

} // verus!
