//! What holds of the escrow across operations and over any sequence of them.
use vstd::prelude::*;
use crate::types::{Constraints, Error, Intent, Operation, Payout, Status, Transfer};
use crate::model::{
    EscrowView, Request, deposit_outcome, escrow_flow, get_intent_outcome, initialise_outcome,
    is_funded, net_flow, owed, owed_for, owed_over, refund_outcome, release_outcome, run, step,
    with_status, subject, pays_out_of, release_traps, amounts_positive, settlement_outcome, flows, authoriser_outcome,
};

verus! {

/// Taking any one intent out of the sum of what is owed.
proof fn lemma_owed_over_remove(m: Map<Seq<char>, Intent>, keys: Set<Seq<char>>, k: Seq<char>, token: String)
    requires
        keys.finite(),
        keys.contains(k),
    ensures
        owed_over(m, keys, token) == owed_for(m[k], token) + owed_over(m, keys.remove(k), token),
    decreases keys.len(),
{
    let c = keys.choose();
    if c != k {
        lemma_owed_over_remove(m, keys.remove(c), k, token);
        lemma_owed_over_remove(m, keys.remove(k), c, token);
        assert(keys.remove(c).remove(k) =~= keys.remove(k).remove(c));
    }
}

/// Two maps that owe the same for every key under `keys` owe the same in sum.
proof fn lemma_owed_over_agree(
    m1: Map<Seq<char>, Intent>,
    m2: Map<Seq<char>, Intent>,
    keys: Set<Seq<char>>,
    token: String,
)
    requires
        keys.finite(),
        forall|k| keys.contains(k) ==> owed_for(#[trigger] m1[k], token) == owed_for(m2[k], token),
    ensures
        owed_over(m1, keys, token) == owed_over(m2, keys, token),
    decreases keys.len(),
{
    if keys.len() > 0 {
        let c = keys.choose();
        lemma_owed_over_agree(m1, m2, keys.remove(c), token);
    }
}

/// Replacing or adding the intent under one key changes what is owed by the
/// difference for that key alone.
proof fn lemma_owed_update(s: EscrowView, k: Seq<char>, i: Intent, token: String)
    requires
        s.intents.dom().finite(),
    ensures
        s.intents.insert(k, i).dom().finite(),
        owed_over(s.intents.insert(k, i), s.intents.insert(k, i).dom(), token) == owed(s, token)
            + owed_for(i, token) - (if s.intents.contains_key(k) {
            owed_for(s.intents[k], token)
        } else {
            0
        }),
{
    let m2 = s.intents.insert(k, i);
    let rest = s.intents.dom().remove(k);
    assert(m2.dom().remove(k) =~= rest);
    lemma_owed_over_remove(m2, m2.dom(), k, token);
    lemma_owed_over_agree(m2, s.intents, rest, token);
    if s.intents.contains_key(k) {
        lemma_owed_over_remove(s.intents, s.intents.dom(), k, token);
    } else {
        assert(rest =~= s.intents.dom());
    }
}

/// Every request moves the escrow's balance of a token by exactly the change
/// in what the escrow owes in that token: a deposit takes in what the new
/// intent is owed, and a release or refund pays out all that its intent was
/// owed.
pub proof fn step_accounting(s: EscrowView, r: Request, token: String)
    requires
        s.intents.dom().finite(),
    ensures
        step(s, r).0.intents.dom().finite(),
        flows(step(s, r).1, token) == owed(step(s, r).0, token) - owed(s, token),
{
    reveal_with_fuel(flows, 3);
    match r {
        Request::Initialise { settlement } => {},
        Request::Deposit { intent_id, depositor, token: tk, amount, constraints, now } => {
            if deposit_outcome(s, intent_id, depositor, tk, amount, constraints, now).1 is Ok {
                let i = Intent { depositor, token: tk, amount, constraints, status: Status::Funded };
                lemma_owed_update(s, intent_id, i, token);
            }
        },
        Request::Release { intent_id, destination, amount } => {
            if release_outcome(s, intent_id, destination, amount).1 is Ok {
                let i = with_status(s.intents[intent_id], Status::Released);
                lemma_owed_update(s, intent_id, i, token);
            }
        },
        Request::Refund { intent_id, now } => {
            if refund_outcome(s, intent_id, now).1 is Ok {
                let i = with_status(s.intents[intent_id], Status::Refunded);
                lemma_owed_update(s, intent_id, i, token);
            }
        },
    }
}

/// Over any sequence of requests, the escrow's balance of a token moves by
/// exactly the change in what it owes in that token.
pub proof fn funds_are_accounted_for(s: EscrowView, reqs: Seq<Request>, token: String)
    requires
        s.intents.dom().finite(),
    ensures
        run(s, reqs).intents.dom().finite(),
        net_flow(s, reqs, token) == owed(run(s, reqs), token) - owed(s, token),
    decreases reqs.len(),
{
    if reqs.len() > 0 {
        step_accounting(s, reqs[0], token);
        funds_are_accounted_for(step(s, reqs[0]).0, reqs.drop_first(), token);
    }
}

/// Starting from an escrow that holds nothing, what the escrow holds of a
/// token after any sequence of requests is exactly what it owes for the
/// intents still funded, each of which release or refund can still pay out:
/// no value is left that nobody can withdraw.
pub proof fn funds_are_never_stranded(settlement: Option<String>, reqs: Seq<Request>, token: String)
    ensures
        net_flow(EscrowView { settlement, intents: Map::empty() }, reqs, token) == owed(
            run(EscrowView { settlement, intents: Map::empty() }, reqs),
            token,
        ),
{
    let s0 = EscrowView { settlement, intents: Map::empty() };
    assert(s0.intents.dom() =~= Set::empty());
    funds_are_accounted_for(s0, reqs, token);
}

/// A release that succeeds, and that the host does not trap on, pays out the
/// intent's whole escrowed amount in its token: the released amount to the
/// destination, and the rest, if any, to the recorded depositor.
pub proof fn release_pays_out_everything(
    s: EscrowView,
    intent_id: Seq<char>,
    destination: String,
    amount: i128,
)
    requires
        !release_traps(s, intent_id, amount),
        release_outcome(s, intent_id, destination, amount).1 is Ok,
    ensures
        0 <= amount <= s.intents[intent_id].amount,
        release_outcome(s, intent_id, destination, amount).1 == Ok::<Payout, Error>(
            Payout {
                release: Transfer::OutOfEscrow {
                    token: s.intents[intent_id].token,
                    to: destination,
                    amount,
                },
                remainder: if amount == s.intents[intent_id].amount {
                    None
                } else {
                    Some(
                        Transfer::OutOfEscrow {
                            token: s.intents[intent_id].token,
                            to: s.intents[intent_id].depositor,
                            amount: (s.intents[intent_id].amount - amount) as i128,
                        },
                    )
                },
            },
        ),
{
}

/// Only the bound settlement contract can authorise a release, and an
/// unbound escrow refuses one; a deposit needs the depositor it names; a
/// refund and the first initialise need nobody.
pub proof fn who_must_authorise(s: EscrowView, depositor: String)
    ensures
        authoriser_outcome(s, Operation::Release) == (match s.settlement {
            Some(a) => Ok::<Option<String>, Error>(Some(a)),
            None => Err(Error::NotInitialised),
        }),
        authoriser_outcome(s, Operation::Deposit { depositor }) == Ok::<Option<String>, Error>(
            Some(depositor),
        ),
        authoriser_outcome(s, Operation::Refund) == Ok::<Option<String>, Error>(None),
        authoriser_outcome(s, Operation::Initialise) == Ok::<Option<String>, Error>(None),
{
}

/// Once the escrow is bound to a settlement contract, no request rebinds
/// it: a second initialise is refused with AlreadyInitialised and changes
/// nothing, and no sequence of requests changes the binding.
pub proof fn settlement_cannot_be_rotated(s: EscrowView, other: String, reqs: Seq<Request>)
    requires
        s.settlement is Some,
    ensures
        initialise_outcome(s, other) == (s, Err::<(), Error>(Error::AlreadyInitialised)),
        run(s, reqs).settlement == s.settlement,
        settlement_outcome(run(s, reqs)) == settlement_outcome(s),
    decreases reqs.len(),
{
    if reqs.len() > 0 {
        settlement_cannot_be_rotated(step(s, reqs[0]).0, other, reqs.drop_first());
    }
}

/// Binding a fresh escrow makes the given contract the one settlement reads
/// back.
pub proof fn settlement_reads_back(s: EscrowView, settlement: String)
    requires
        s.settlement is None,
    ensures
        initialise_outcome(s, settlement).1 is Ok,
        settlement_outcome(initialise_outcome(s, settlement).0) == Ok::<String, Error>(settlement),
        initialise_outcome(s, settlement).0.intents == s.intents,
{
}

/// A request concerns one intent only: every other intent is left exactly
/// as it was, present or absent.
pub proof fn requests_are_isolated(s: EscrowView, r: Request, k: Seq<char>)
    requires
        subject(r) != Some(k),
    ensures
        step(s, r).0.intents.contains_key(k) == s.intents.contains_key(k),
        s.intents.contains_key(k) ==> step(s, r).0.intents[k] == s.intents[k],
{
}

/// One request never removes an intent nor changes its terms; it may only
/// move a funded intent's status, and leaves an intent that is no longer
/// funded exactly as it was.
proof fn lemma_step_keeps_history(s: EscrowView, r: Request, k: Seq<char>)
    requires
        s.intents.contains_key(k),
    ensures
        step(s, r).0.intents.contains_key(k),
        step(s, r).0.intents[k] == with_status(s.intents[k], step(s, r).0.intents[k].status),
        s.intents[k].status != Status::Funded ==> step(s, r).0.intents[k] == s.intents[k],
{
}

/// An intent, once accepted, is never removed and its terms never change:
/// over any sequence of requests only its status moves, and once it is
/// released or refunded nothing about it changes again.
pub proof fn intent_history(s: EscrowView, reqs: Seq<Request>, k: Seq<char>)
    requires
        s.intents.contains_key(k),
    ensures
        run(s, reqs).intents.contains_key(k),
        run(s, reqs).intents[k] == with_status(s.intents[k], run(s, reqs).intents[k].status),
        s.intents[k].status != Status::Funded ==> run(s, reqs).intents[k] == s.intents[k],
    decreases reqs.len(),
{
    if reqs.len() > 0 {
        lemma_step_keeps_history(s, reqs[0], k);
        intent_history(step(s, reqs[0]).0, reqs.drop_first(), k);
    }
}

/// An intent that is not funded, whether unknown, released or refunded, can
/// move no funds: once the escrow is bound, release refuses it with
/// IntentNotFunded, refund refuses it the same way, and neither changes
/// anything.
pub proof fn unfunded_intent_moves_nothing(
    s: EscrowView,
    intent_id: Seq<char>,
    destination: String,
    amount: i128,
    now: u64,
)
    requires
        s.settlement is Some,
        !is_funded(s, intent_id),
    ensures
        release_outcome(s, intent_id, destination, amount) == (s, Err::<Payout, Error>(
            Error::IntentNotFunded,
        )),
        refund_outcome(s, intent_id, now) == (s, Err::<Transfer, Error>(Error::IntentNotFunded)),
{
}

/// A release or refund that succeeds consumes the intent before its
/// transfers are handed out, so any later release or refund of the same
/// intent, re-entrant or not, moves nothing and changes nothing.
pub proof fn no_second_payout(s: EscrowView, first: Request, second: Request, intent_id: Seq<char>)
    requires
        pays_out_of(first, intent_id),
        pays_out_of(second, intent_id),
        step(s, first).1.len() > 0,
    ensures
        !is_funded(step(s, first).0, intent_id),
        step(step(s, first).0, second) == (step(s, first).0, Seq::<Transfer>::empty()),
{
}

/// A refund, whoever asks for it, pays the intent's whole amount in its
/// token to the recorded depositor, and only strictly after the deadline.
pub proof fn refund_pays_the_depositor(s: EscrowView, intent_id: Seq<char>, now: u64)
    requires
        is_funded(s, intent_id),
    ensures
        now <= s.intents[intent_id].constraints.deadline ==> refund_outcome(s, intent_id, now) == (
            s,
            Err::<Transfer, Error>(Error::DeadlineNotPassed),
        ),
        now > s.intents[intent_id].constraints.deadline ==> refund_outcome(s, intent_id, now).1
            == Ok::<Transfer, Error>(
            Transfer::OutOfEscrow {
                token: s.intents[intent_id].token,
                to: s.intents[intent_id].depositor,
                amount: s.intents[intent_id].amount,
            },
        ),
{
}

/// A deposit under an id already in use is refused and changes nothing, so
/// it cannot overwrite an existing depositor's claim.
pub proof fn deposit_never_overwrites(
    s: EscrowView,
    intent_id: Seq<char>,
    depositor: String,
    token: String,
    amount: i128,
    constraints: Constraints,
    now: u64,
)
    requires
        s.intents.contains_key(intent_id),
    ensures
        deposit_outcome(s, intent_id, depositor, token, amount, constraints, now).0 == s,
        deposit_outcome(s, intent_id, depositor, token, amount, constraints, now).1 is Err,
{
}

/// A deposit that succeeds is read back as a funded intent with exactly the
/// depositor, token, amount and constraints given, and pulls that amount of
/// that token from the depositor.
pub proof fn deposit_reads_back(
    s: EscrowView,
    intent_id: Seq<char>,
    depositor: String,
    token: String,
    amount: i128,
    constraints: Constraints,
    now: u64,
)
    requires
        deposit_outcome(s, intent_id, depositor, token, amount, constraints, now).1 is Ok,
    ensures
        get_intent_outcome(
            deposit_outcome(s, intent_id, depositor, token, amount, constraints, now).0,
            intent_id,
        ) == Ok::<Intent, Error>(
            Intent { depositor, token, amount, constraints, status: Status::Funded },
        ),
        deposit_outcome(s, intent_id, depositor, token, amount, constraints, now).1 == Ok::<
            Transfer,
            Error,
        >(Transfer::IntoEscrow { token, from: depositor, amount }),
{
}

/// A refused request changes nothing: whenever initialise, deposit, release
/// or refund answers with an error, the state is left as it was.
pub proof fn refusals_change_nothing(
    s: EscrowView,
    settlement: String,
    intent_id: Seq<char>,
    depositor: String,
    token: String,
    amount: i128,
    constraints: Constraints,
    now: u64,
    destination: String,
)
    ensures
        initialise_outcome(s, settlement).1 is Err ==> initialise_outcome(s, settlement).0 == s,
        deposit_outcome(s, intent_id, depositor, token, amount, constraints, now).1 is Err
            ==> deposit_outcome(s, intent_id, depositor, token, amount, constraints, now).0 == s,
        release_outcome(s, intent_id, destination, amount).1 is Err ==> release_outcome(
            s,
            intent_id,
            destination,
            amount,
        ).0 == s,
        refund_outcome(s, intent_id, now).1 is Err ==> refund_outcome(s, intent_id, now).0 == s,
{
}

proof fn lemma_step_keeps_amounts_positive(s: EscrowView, r: Request)
    requires
        amounts_positive(s),
    ensures
        amounts_positive(step(s, r).0),
{
    let s2 = step(s, r).0;
    assert forall|k| #[trigger] s2.intents.contains_key(k) implies s2.intents[k].amount > 0 by {
        if s.intents.contains_key(k) {
            lemma_step_keeps_history(s, r, k);
        }
    }
}

proof fn lemma_run_keeps_amounts_positive(s: EscrowView, reqs: Seq<Request>)
    requires
        amounts_positive(s),
    ensures
        amounts_positive(run(s, reqs)),
    decreases reqs.len(),
{
    if reqs.len() > 0 {
        lemma_step_keeps_amounts_positive(s, reqs[0]);
        lemma_run_keeps_amounts_positive(step(s, reqs[0]).0, reqs.drop_first());
    }
}

/// Every intent held by an escrow that started empty has a positive amount,
/// after any sequence of requests: only a deposit adds intents, and it
/// refuses a non-positive amount. In such a state a release of 0 up to the
/// escrowed amount is accepted, and only a negative one traps.
pub proof fn stored_amounts_are_positive(
    settlement: Option<String>,
    reqs: Seq<Request>,
    intent_id: Seq<char>,
    destination: String,
    amount: i128,
)
    ensures
        amounts_positive(run(EscrowView { settlement, intents: Map::empty() }, reqs)),
        ({
            let s = run(EscrowView { settlement, intents: Map::empty() }, reqs);
            (s.settlement is Some && is_funded(s, intent_id) && 0 <= amount
                <= s.intents[intent_id].amount) ==> release_outcome(
                s,
                intent_id,
                destination,
                amount,
            ).1 is Ok
        }),
        ({
            let s = run(EscrowView { settlement, intents: Map::empty() }, reqs);
            release_traps(s, intent_id, amount) <==> (s.settlement is Some && is_funded(
                s,
                intent_id,
            ) && amount < 0)
        }),
{
    lemma_run_keeps_amounts_positive(EscrowView { settlement, intents: Map::empty() }, reqs);
}

/// What a deposit answers, for every state and request: it succeeds exactly
/// when the amount is positive, the deadline is strictly after `now` and the
/// id is unused. A non-positive amount is refused with ZeroAmount; otherwise
/// a deadline at or before `now` with DeadlineInThePast; otherwise a used id
/// with IntentAlreadyExists. A refused deposit changes nothing. A successful
/// one keeps the binding and every other intent, stores under the id a
/// funded intent with exactly the depositor, token, amount and constraints
/// given, and pulls that amount of that token from the depositor.
pub proof fn deposit_decides_on_amount_deadline_and_id(
    s: EscrowView,
    intent_id: Seq<char>,
    depositor: String,
    token: String,
    amount: i128,
    constraints: Constraints,
    now: u64,
)
    ensures
        ({
            let (s2, res) = deposit_outcome(s, intent_id, depositor, token, amount, constraints, now);
            &&& res is Ok <==> (amount > 0 && constraints.deadline > now && !s.intents.contains_key(
                intent_id,
            ))
            &&& amount <= 0 ==> res == Err::<Transfer, Error>(Error::ZeroAmount)
            &&& (amount > 0 && constraints.deadline <= now) ==> res == Err::<Transfer, Error>(
                Error::DeadlineInThePast,
            )
            &&& (amount > 0 && constraints.deadline > now && s.intents.contains_key(intent_id))
                ==> res == Err::<Transfer, Error>(Error::IntentAlreadyExists)
            &&& res is Err ==> s2 == s
            &&& res is Ok ==> {
                &&& s2.settlement == s.settlement
                &&& s2.intents == s.intents.insert(
                    intent_id,
                    Intent { depositor, token, amount, constraints, status: Status::Funded },
                )
                &&& res == Ok::<Transfer, Error>(
                    Transfer::IntoEscrow { token, from: depositor, amount },
                )
            }
        }),
{
}

/// What a release answers, for every state and request the host does not
/// trap on: it succeeds exactly when the escrow is bound, the intent is
/// present and funded, and the amount is no larger than the escrowed one.
/// An unbound escrow refuses with NotInitialised; otherwise an unknown or
/// settled intent with IntentNotFunded; otherwise a larger amount with
/// AmountExceedsEscrow. A refused release changes nothing. A successful one,
/// whatever the destination, keeps the binding and every other intent and
/// marks the intent Released with its terms unchanged. The host traps
/// exactly on a release that would succeed but for its negative amount.
pub proof fn release_decides_on_binding_funding_and_amount(
    s: EscrowView,
    intent_id: Seq<char>,
    destination: String,
    amount: i128,
)
    ensures
        ({
            let (s2, res) = release_outcome(s, intent_id, destination, amount);
            let funded = s.intents.contains_key(intent_id) && s.intents[intent_id].status
                == Status::Funded;
            &&& res is Ok <==> (s.settlement is Some && funded && amount
                <= s.intents[intent_id].amount)
            &&& s.settlement is None ==> res == Err::<Payout, Error>(Error::NotInitialised)
            &&& (s.settlement is Some && !funded) ==> res == Err::<Payout, Error>(
                Error::IntentNotFunded,
            )
            &&& (s.settlement is Some && funded && amount > s.intents[intent_id].amount) ==> res
                == Err::<Payout, Error>(Error::AmountExceedsEscrow)
            &&& res is Err ==> s2 == s
            &&& res is Ok ==> {
                &&& s2.settlement == s.settlement
                &&& s2.intents == s.intents.insert(
                    intent_id,
                    Intent { status: Status::Released, ..s.intents[intent_id] },
                )
            }
        }),
        release_traps(s, intent_id, amount) <==> (s.settlement is Some && s.intents.contains_key(
            intent_id,
        ) && s.intents[intent_id].status == Status::Funded && amount
            <= s.intents[intent_id].amount && amount < 0),
{
}

/// What a refund answers, for every state and request, whoever asks: it
/// succeeds exactly when the intent is present and funded and `now` is
/// strictly after its deadline. An unknown or settled intent is refused
/// with IntentNotFunded; otherwise a deadline not yet passed with
/// DeadlineNotPassed. A refused refund changes nothing. A successful one
/// keeps the binding and every other intent, marks the intent Refunded with
/// its terms unchanged, and pays the whole amount in its token to the
/// recorded depositor.
pub proof fn refund_decides_on_funding_and_deadline(s: EscrowView, intent_id: Seq<char>, now: u64)
    ensures
        ({
            let (s2, res) = refund_outcome(s, intent_id, now);
            let funded = s.intents.contains_key(intent_id) && s.intents[intent_id].status
                == Status::Funded;
            &&& res is Ok <==> (funded && now > s.intents[intent_id].constraints.deadline)
            &&& !funded ==> res == Err::<Transfer, Error>(Error::IntentNotFunded)
            &&& (funded && now <= s.intents[intent_id].constraints.deadline) ==> res == Err::<
                Transfer,
                Error,
            >(Error::DeadlineNotPassed)
            &&& res is Err ==> s2 == s
            &&& res is Ok ==> {
                &&& s2.settlement == s.settlement
                &&& s2.intents == s.intents.insert(
                    intent_id,
                    Intent { status: Status::Refunded, ..s.intents[intent_id] },
                )
                &&& res == Ok::<Transfer, Error>(
                    Transfer::OutOfEscrow {
                        token: s.intents[intent_id].token,
                        to: s.intents[intent_id].depositor,
                        amount: s.intents[intent_id].amount,
                    },
                )
            }
        }),
{
}

/// Reading an intent gives back the stored record unchanged, whatever its
/// status, and an id never used is answered with IntentNotFunded.
pub proof fn get_intent_reads_the_stored_record(s: EscrowView, intent_id: Seq<char>)
    ensures
        s.intents.contains_key(intent_id) ==> get_intent_outcome(s, intent_id) == Ok::<
            Intent,
            Error,
        >(s.intents[intent_id]),
        !s.intents.contains_key(intent_id) ==> get_intent_outcome(s, intent_id) == Err::<
            Intent,
            Error,
        >(Error::IntentNotFunded),
{
}

/// Binding and reading the settlement contract: initialise succeeds exactly
/// on an unbound escrow, binds the given contract and keeps every intent;
/// settlement reads back the bound contract, and NotInitialised while
/// unbound.
pub proof fn settlement_binding_and_reading(s: EscrowView, settlement: String)
    ensures
        initialise_outcome(s, settlement).1 is Ok <==> s.settlement is None,
        s.settlement is None ==> initialise_outcome(s, settlement).0 == (EscrowView {
            settlement: Some(settlement),
            intents: s.intents,
        }),
        s.settlement is Some ==> initialise_outcome(s, settlement) == (s, Err::<(), Error>(
            Error::AlreadyInitialised,
        )),
        s.settlement is None ==> settlement_outcome(s) == Err::<String, Error>(
            Error::NotInitialised,
        ),
        s.settlement is Some ==> settlement_outcome(s) == Ok::<String, Error>(s.settlement->0),
{
}

} // verus!
