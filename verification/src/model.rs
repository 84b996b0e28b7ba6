//! The escrow as a mathematical state machine: what each operation does to
//! the state, and what it answers.
use vstd::prelude::*;
use crate::types::{Constraints, Error, Intent, Operation, Payout, Status, Transfer};

verus! {

/// The escrow's state: the settlement contract it is bound to, if any, and
/// every intent it has ever accepted, keyed by intent id.
pub struct EscrowView {
    pub settlement: Option<String>,
    pub intents: Map<Seq<char>, Intent>,
}

/// An intent record with its status replaced.
pub open spec fn with_status(intent: Intent, status: Status) -> Intent {
    Intent { status, ..intent }
}

/// The stored intent under `intent_id` is present and still holds funds.
pub open spec fn is_funded(s: EscrowView, intent_id: Seq<char>) -> bool {
    s.intents.contains_key(intent_id) && s.intents[intent_id].status == Status::Funded
}

/// Binding the escrow to its settlement contract succeeds once only.
pub open spec fn initialise_outcome(s: EscrowView, settlement: String) -> (EscrowView, Result<(), Error>) {
    if s.settlement is Some {
        (s, Err(Error::AlreadyInitialised))
    } else {
        (EscrowView { settlement: Some(settlement), intents: s.intents }, Ok(()))
    }
}

/// Locking `amount` of `token` against a new intent id. The checks come in
/// this order: a positive amount, a deadline after `now`, an unused id.
pub open spec fn deposit_outcome(
    s: EscrowView,
    intent_id: Seq<char>,
    depositor: String,
    token: String,
    amount: i128,
    constraints: Constraints,
    now: u64,
) -> (EscrowView, Result<Transfer, Error>) {
    if amount <= 0 {
        (s, Err(Error::ZeroAmount))
    } else if constraints.deadline <= now {
        (s, Err(Error::DeadlineInThePast))
    } else if s.intents.contains_key(intent_id) {
        (s, Err(Error::IntentAlreadyExists))
    } else {
        let intent = Intent { depositor, token, amount, constraints, status: Status::Funded };
        (
            EscrowView { settlement: s.settlement, intents: s.intents.insert(intent_id, intent) },
            Ok(Transfer::IntoEscrow { token, from: depositor, amount }),
        )
    }
}

/// Every intent held has a positive amount.
pub open spec fn amounts_positive(s: EscrowView) -> bool {
    forall|k| #[trigger] s.intents.contains_key(k) ==> s.intents[k].amount > 0
}

/// A release the host traps on: it passes every check of the escrow, but its
/// amount is negative, which the token transfer refuses by trapping, so the
/// whole call is undone.
pub open spec fn release_traps(s: EscrowView, intent_id: Seq<char>, amount: i128) -> bool {
    &&& s.settlement is Some
    &&& is_funded(s, intent_id)
    &&& amount <= s.intents[intent_id].amount
    &&& amount < 0
}

/// Releasing part or all of a funded intent's amount to `destination`. The
/// checks come in this order: a bound settlement contract, a funded intent,
/// an amount no larger than the escrowed one. What is not released goes back
/// to the depositor, so the intent leaves nothing behind; a release of 0
/// pays the whole amount back. A negative amount that passes the checks is
/// one the host traps on (`release_traps`).
pub open spec fn release_outcome(
    s: EscrowView,
    intent_id: Seq<char>,
    destination: String,
    amount: i128,
) -> (EscrowView, Result<Payout, Error>) {
    if s.settlement is None {
        (s, Err(Error::NotInitialised))
    } else if !is_funded(s, intent_id) {
        (s, Err(Error::IntentNotFunded))
    } else if amount > s.intents[intent_id].amount {
        (s, Err(Error::AmountExceedsEscrow))
    } else {
        let intent = s.intents[intent_id];
        (
            EscrowView {
                settlement: s.settlement,
                intents: s.intents.insert(intent_id, with_status(intent, Status::Released)),
            },
            Ok(
                Payout {
                    release: Transfer::OutOfEscrow { token: intent.token, to: destination, amount },
                    remainder: if amount < intent.amount {
                        Some(
                            Transfer::OutOfEscrow {
                                token: intent.token,
                                to: intent.depositor,
                                amount: (intent.amount - amount) as i128,
                            },
                        )
                    } else {
                        None
                    },
                },
            ),
        )
    }
}

/// Returning a funded intent's whole amount to its recorded depositor, once
/// `now` is strictly past the deadline.
pub open spec fn refund_outcome(s: EscrowView, intent_id: Seq<char>, now: u64) -> (
    EscrowView,
    Result<Transfer, Error>,
) {
    if !is_funded(s, intent_id) {
        (s, Err(Error::IntentNotFunded))
    } else if now <= s.intents[intent_id].constraints.deadline {
        (s, Err(Error::DeadlineNotPassed))
    } else {
        let intent = s.intents[intent_id];
        (
            EscrowView {
                settlement: s.settlement,
                intents: s.intents.insert(intent_id, with_status(intent, Status::Refunded)),
            },
            Ok(
                Transfer::OutOfEscrow {
                    token: intent.token,
                    to: intent.depositor,
                    amount: intent.amount,
                },
            ),
        )
    }
}

/// Reading an intent: any intent ever accepted, whatever its status.
pub open spec fn get_intent_outcome(s: EscrowView, intent_id: Seq<char>) -> Result<Intent, Error> {
    if s.intents.contains_key(intent_id) {
        Ok(s.intents[intent_id])
    } else {
        Err(Error::IntentNotFunded)
    }
}

/// Reading the settlement contract the escrow is bound to.
pub open spec fn settlement_outcome(s: EscrowView) -> Result<String, Error> {
    match s.settlement {
        Some(a) => Ok(a),
        None => Err(Error::NotInitialised),
    }
}


/// Who must authorise an operation before it is decided: the named depositor
/// for a deposit, the bound settlement contract for a release (which needs
/// a bound escrow), and nobody for initialise or refund.
pub open spec fn authoriser_outcome(s: EscrowView, op: Operation) -> Result<Option<String>, Error> {
    match op {
        Operation::Initialise => Ok(None),
        Operation::Deposit { depositor } => Ok(Some(depositor)),
        Operation::Release => match s.settlement {
            Some(a) => Ok(Some(a)),
            None => Err(Error::NotInitialised),
        },
        Operation::Refund => Ok(None),
    }
}

/// One request to the escrow, with the ledger time where it matters.
pub enum Request {
    Initialise { settlement: String },
    Deposit {
        intent_id: Seq<char>,
        depositor: String,
        token: String,
        amount: i128,
        constraints: Constraints,
        now: u64,
    },
    Release { intent_id: Seq<char>, destination: String, amount: i128 },
    Refund { intent_id: Seq<char>, now: u64 },
}

/// The token movements an outcome asks for.
pub open spec fn performed<E>(res: Result<Transfer, E>) -> Seq<Transfer> {
    match res {
        Ok(t) => seq![t],
        Err(_) => Seq::empty(),
    }
}

/// The token movements a release outcome asks for.
pub open spec fn paid_out<E>(res: Result<Payout, E>) -> Seq<Transfer> {
    match res {
        Ok(p) => match p.remainder {
            Some(r) => seq![p.release, r],
            None => seq![p.release],
        },
        Err(_) => Seq::empty(),
    }
}

/// The state after one request, and the token movements it asks for. A
/// request the host traps on is undone: it leaves the state as it was and
/// moves nothing.
pub open spec fn step(s: EscrowView, r: Request) -> (EscrowView, Seq<Transfer>) {
    match r {
        Request::Initialise { settlement } => (initialise_outcome(s, settlement).0, Seq::empty()),
        Request::Deposit { intent_id, depositor, token, amount, constraints, now } => {
            let (s2, res) = deposit_outcome(s, intent_id, depositor, token, amount, constraints, now);
            (s2, performed(res))
        },
        Request::Release { intent_id, destination, amount } => {
            if release_traps(s, intent_id, amount) {
                (s, Seq::empty())
            } else {
                let (s2, res) = release_outcome(s, intent_id, destination, amount);
                (s2, paid_out(res))
            }
        },
        Request::Refund { intent_id, now } => {
            let (s2, res) = refund_outcome(s, intent_id, now);
            (s2, performed(res))
        },
    }
}

/// The state after a sequence of requests, taken in order.
pub open spec fn run(s: EscrowView, reqs: Seq<Request>) -> EscrowView
    decreases reqs.len(),
{
    if reqs.len() == 0 {
        s
    } else {
        run(step(s, reqs[0]).0, reqs.drop_first())
    }
}

/// What a token movement does to the escrow's own balance of `token`.
pub open spec fn escrow_flow(t: Transfer, token: String) -> int {
    match t {
        Transfer::IntoEscrow { token: tk, from: _, amount } => if tk == token {
            amount as int
        } else {
            0
        },
        Transfer::OutOfEscrow { token: tk, to: _, amount } => if tk == token {
            -(amount as int)
        } else {
            0
        },
    }
}

/// What a list of token movements does to the escrow's balance of `token`.
pub open spec fn flows(ts: Seq<Transfer>, token: String) -> int
    decreases ts.len(),
{
    if ts.len() == 0 {
        0
    } else {
        escrow_flow(ts[0], token) + flows(ts.drop_first(), token)
    }
}

/// The net change of the escrow's balance of `token` over a sequence of
/// requests.
pub open spec fn net_flow(s: EscrowView, reqs: Seq<Request>, token: String) -> int
    decreases reqs.len(),
{
    if reqs.len() == 0 {
        0
    } else {
        let (s2, t) = step(s, reqs[0]);
        flows(t, token) + net_flow(s2, reqs.drop_first(), token)
    }
}

/// What the escrow owes for one intent in `token`: its amount while it is
/// funded, nothing once released or refunded.
pub open spec fn owed_for(i: Intent, token: String) -> int {
    if i.status == Status::Funded && i.token == token {
        i.amount as int
    } else {
        0
    }
}

/// What the escrow owes in `token` for the intents under `keys`.
pub open spec fn owed_over(m: Map<Seq<char>, Intent>, keys: Set<Seq<char>>, token: String) -> int
    decreases keys.len(),
    when keys.finite()
{
    if keys.len() == 0 {
        0
    } else {
        let k = keys.choose();
        owed_for(m[k], token) + owed_over(m, keys.remove(k), token)
    }
}

/// What the escrow owes in `token`, over all the intents it holds.
pub open spec fn owed(s: EscrowView, token: String) -> int {
    owed_over(s.intents, s.intents.dom(), token)
}

/// The intent a request is about, if any.
pub open spec fn subject(r: Request) -> Option<Seq<char>> {
    match r {
        Request::Initialise { .. } => None,
        Request::Deposit { intent_id, .. } => Some(intent_id),
        Request::Release { intent_id, .. } => Some(intent_id),
        Request::Refund { intent_id, .. } => Some(intent_id),
    }
}

/// A request that pays funds of the intent `intent_id` out of the escrow.
pub open spec fn pays_out_of(r: Request, intent_id: Seq<char>) -> bool {
    match r {
        Request::Release { intent_id: k, .. } => k == intent_id,
        Request::Refund { intent_id: k, .. } => k == intent_id,
        _ => false,
    }
}

} // verus!
