use intent_escrow::{Constraints, Error, Intent, IntentEscrow, Status, Transfer};
use soroban_sdk::{
    testutils::{Address as _, EnvTestConfig, Ledger},
    token::{StellarAssetClient, TokenClient},
    Address, Env,
};

const AMOUNT: i128 = 500_0000000; // 500 USDC at Stellar's 7 decimal places
const MAX_SLIPPAGE_BPS: u32 = 100;
const ONE_HOUR: u64 = 3_600;

/// The escrow's state next to a real token contract: every transfer that the
/// escrow hands out is performed on the token, from or to `escrow_address`.
struct Fixture {
    env: Env,
    escrow: IntentEscrow,
    escrow_address: Address,
    token: TokenClient<'static>,
    token_admin: StellarAssetClient<'static>,
    settlement: Address,
    depositor: Address,
    destination: Address,
}

fn strkey(a: &Address) -> String {
    a.to_string().to_string()
}

/// A test environment that keeps its ledger snapshot in memory.
fn test_env() -> Env {
    Env::new_with_config(EnvTestConfig { capture_snapshot_at_drop: false })
}

fn setup() -> Fixture {
    let env = test_env();
    env.mock_all_auths();

    let issuer = Address::generate(&env);
    let sac = env.register_stellar_asset_contract_v2(issuer);
    let token = TokenClient::new(&env, &sac.address());
    let token_admin = StellarAssetClient::new(&env, &sac.address());

    let settlement = Address::generate(&env);
    let depositor = Address::generate(&env);
    let destination = Address::generate(&env);
    let escrow_address = Address::generate(&env);

    let mut escrow = IntentEscrow::new();
    escrow.initialise(strkey(&settlement)).unwrap();

    token_admin.mint(&depositor, &(AMOUNT * 10));

    Fixture {
        env,
        escrow,
        escrow_address,
        token,
        token_admin,
        settlement,
        depositor,
        destination,
    }
}

fn perform(f: &Fixture, t: Transfer) {
    match t {
        Transfer::IntoEscrow { token, from, amount } => {
            let client = TokenClient::new(&f.env, &Address::from_str(&f.env, &token));
            client.transfer(&Address::from_str(&f.env, &from), &f.escrow_address, &amount);
        }
        Transfer::OutOfEscrow { token, to, amount } => {
            let client = TokenClient::new(&f.env, &Address::from_str(&f.env, &token));
            client.transfer(&f.escrow_address, &Address::from_str(&f.env, &to), &amount);
        }
    }
}

fn try_deposit(
    f: &mut Fixture,
    id: &str,
    depositor: &Address,
    token: &Address,
    amount: i128,
    c: Constraints,
) -> Result<(), Error> {
    let now = f.env.ledger().timestamp();
    let t = f
        .escrow
        .deposit(id.to_string(), strkey(depositor), strkey(token), amount, c, now)?;
    perform(f, t);
    Ok(())
}

fn deposit(f: &mut Fixture, id: &str, amount: i128, c: Constraints) {
    let depositor = f.depositor.clone();
    let token = f.token.address.clone();
    try_deposit(f, id, &depositor, &token, amount, c).unwrap();
}

fn try_release(f: &mut Fixture, id: &str, destination: &Address, amount: i128) -> Result<(), Error> {
    let payout = f.escrow.release(id.to_string(), strkey(destination), amount)?;
    perform(f, payout.release);
    if let Some(remainder) = payout.remainder {
        perform(f, remainder);
    }
    Ok(())
}

fn try_refund(f: &mut Fixture, id: &str) -> Result<(), Error> {
    let now = f.env.ledger().timestamp();
    let t = f.escrow.refund(id.to_string(), now)?;
    perform(f, t);
    Ok(())
}

fn get_intent(f: &Fixture, id: &str) -> Intent {
    f.escrow.get_intent(id.to_string()).unwrap()
}

fn constraints(env: &Env) -> Constraints {
    Constraints {
        token_in: String::from("USDC"),
        token_out: String::from("XLM"),
        max_slippage_bps: MAX_SLIPPAGE_BPS,
        deadline: env.ledger().timestamp() + ONE_HOUR,
    }
}

const INTENT_ID: &str = "intent-1";

// --- deposit ---------------------------------------------------------------

#[test]
fn deposit_moves_tokens_into_the_escrow() {
    let mut f = setup();
    let c = constraints(&f.env);
    deposit(&mut f, INTENT_ID, AMOUNT, c);

    assert_eq!(f.token.balance(&f.escrow_address), AMOUNT);
    assert_eq!(f.token.balance(&f.depositor), AMOUNT * 9);
}

#[test]
fn deposit_records_the_depositor_and_constraints() {
    let mut f = setup();
    let c = constraints(&f.env);
    deposit(&mut f, INTENT_ID, AMOUNT, c);

    let intent = get_intent(&f, INTENT_ID);
    assert_eq!(intent.depositor, strkey(&f.depositor));
    assert_eq!(intent.amount, AMOUNT);
    assert_eq!(intent.status, Status::Funded);
    assert_eq!(intent.constraints.max_slippage_bps, MAX_SLIPPAGE_BPS);
}

#[test]
fn deposit_rejects_a_non_positive_amount() {
    let mut f = setup();
    let depositor = f.depositor.clone();
    let token = f.token.address.clone();

    let c = constraints(&f.env);
    let err = try_deposit(&mut f, INTENT_ID, &depositor, &token, 0, c).unwrap_err();
    assert_eq!(err, Error::ZeroAmount);

    let c = constraints(&f.env);
    let err = try_deposit(&mut f, INTENT_ID, &depositor, &token, -1, c).unwrap_err();
    assert_eq!(err, Error::ZeroAmount);
}

#[test]
fn deposit_rejects_a_deadline_in_the_past() {
    let mut f = setup();
    let depositor = f.depositor.clone();
    let token = f.token.address.clone();

    let mut c = constraints(&f.env);
    c.deadline = f.env.ledger().timestamp();

    let err = try_deposit(&mut f, INTENT_ID, &depositor, &token, AMOUNT, c).unwrap_err();
    assert_eq!(err, Error::DeadlineInThePast);
}

/// Reusing an intent id would let a second deposit overwrite the first
/// depositor's claim on funds already held.
#[test]
fn deposit_rejects_a_duplicate_intent_id() {
    let mut f = setup();
    let depositor = f.depositor.clone();
    let token = f.token.address.clone();
    let c = constraints(&f.env);

    try_deposit(&mut f, INTENT_ID, &depositor, &token, AMOUNT, c.clone()).unwrap();

    let err = try_deposit(&mut f, INTENT_ID, &depositor, &token, AMOUNT, c).unwrap_err();
    assert_eq!(err, Error::IntentAlreadyExists);
}

// --- release ---------------------------------------------------------------

#[test]
fn release_sends_funds_to_the_destination() {
    let mut f = setup();
    let c = constraints(&f.env);
    let destination = f.destination.clone();
    deposit(&mut f, INTENT_ID, AMOUNT, c);
    try_release(&mut f, INTENT_ID, &destination, AMOUNT).unwrap();

    assert_eq!(f.token.balance(&f.destination), AMOUNT);
    assert_eq!(f.token.balance(&f.escrow_address), 0);
}

#[test]
fn release_rejects_more_than_was_escrowed() {
    let mut f = setup();
    let c = constraints(&f.env);
    let destination = f.destination.clone();
    deposit(&mut f, INTENT_ID, AMOUNT, c);

    let err = try_release(&mut f, INTENT_ID, &destination, AMOUNT + 1).unwrap_err();
    assert_eq!(err, Error::AmountExceedsEscrow);
    assert_eq!(f.token.balance(&f.escrow_address), AMOUNT);
}

#[test]
fn release_cannot_happen_twice() {
    let mut f = setup();
    let c = constraints(&f.env);
    let destination = f.destination.clone();
    deposit(&mut f, INTENT_ID, AMOUNT, c);
    try_release(&mut f, INTENT_ID, &destination, AMOUNT).unwrap();

    let err = try_release(&mut f, INTENT_ID, &destination, AMOUNT).unwrap_err();
    assert_eq!(err, Error::IntentNotFunded);
}

#[test]
fn release_rejects_an_unknown_intent() {
    let mut f = setup();
    let destination = f.destination.clone();

    let err = try_release(&mut f, "never-deposited", &destination, AMOUNT).unwrap_err();
    assert_eq!(err, Error::IntentNotFunded);
}

// --- refund ----------------------------------------------------------------

/// Permissionless by design. If a user must be online to reclaim their own
/// money, the escrow is a liability rather than a protection.
#[test]
fn anyone_can_trigger_refund_after_the_deadline() {
    let mut f = setup();
    let before = f.token.balance(&f.depositor);
    let c = constraints(&f.env);
    deposit(&mut f, INTENT_ID, AMOUNT, c);

    f.env.ledger().with_mut(|l| l.timestamp += ONE_HOUR * 2);
    try_refund(&mut f, INTENT_ID).unwrap();

    assert_eq!(f.token.balance(&f.depositor), before);
    assert_eq!(f.token.balance(&f.escrow_address), 0);
}

/// Funds go to the recorded depositor regardless of who calls, so a
/// permissionless refund cannot be used to redirect money.
#[test]
fn refund_always_returns_to_the_depositor() {
    let mut f = setup();
    let stranger = Address::generate(&f.env);
    let c = constraints(&f.env);
    deposit(&mut f, INTENT_ID, AMOUNT, c);

    f.env.ledger().with_mut(|l| l.timestamp += ONE_HOUR * 2);
    try_refund(&mut f, INTENT_ID).unwrap();

    assert_eq!(f.token.balance(&stranger), 0);
    assert_eq!(f.token.balance(&f.escrow_address), 0);
}

#[test]
fn refund_rejected_before_the_deadline() {
    let mut f = setup();
    let c = constraints(&f.env);
    deposit(&mut f, INTENT_ID, AMOUNT, c);

    let err = try_refund(&mut f, INTENT_ID).unwrap_err();
    assert_eq!(err, Error::DeadlineNotPassed);
}

/// The boundary itself: refund is available strictly after the deadline, so it
/// cannot race a settlement that is still valid.
#[test]
fn refund_rejected_at_exactly_the_deadline() {
    let mut f = setup();
    let c = constraints(&f.env);
    let deadline = c.deadline;
    deposit(&mut f, INTENT_ID, AMOUNT, c);

    f.env.ledger().with_mut(|l| l.timestamp = deadline);

    let err = try_refund(&mut f, INTENT_ID).unwrap_err();
    assert_eq!(err, Error::DeadlineNotPassed);
}

#[test]
fn refund_succeeds_one_second_after_the_deadline() {
    let mut f = setup();
    let c = constraints(&f.env);
    let deadline = c.deadline;
    deposit(&mut f, INTENT_ID, AMOUNT, c);

    f.env.ledger().with_mut(|l| l.timestamp = deadline + 1);
    try_refund(&mut f, INTENT_ID).unwrap();

    assert_eq!(f.token.balance(&f.escrow_address), 0);
}

#[test]
fn refund_cannot_happen_twice() {
    let mut f = setup();
    let c = constraints(&f.env);
    deposit(&mut f, INTENT_ID, AMOUNT, c);

    f.env.ledger().with_mut(|l| l.timestamp += ONE_HOUR * 2);
    try_refund(&mut f, INTENT_ID).unwrap();

    let err = try_refund(&mut f, INTENT_ID).unwrap_err();
    assert_eq!(err, Error::IntentNotFunded);
}

#[test]
fn refund_rejected_after_release() {
    let mut f = setup();
    let c = constraints(&f.env);
    let destination = f.destination.clone();
    deposit(&mut f, INTENT_ID, AMOUNT, c);
    try_release(&mut f, INTENT_ID, &destination, AMOUNT).unwrap();

    f.env.ledger().with_mut(|l| l.timestamp += ONE_HOUR * 2);

    let err = try_refund(&mut f, INTENT_ID).unwrap_err();
    assert_eq!(err, Error::IntentNotFunded);
}

#[test]
fn release_rejected_after_refund() {
    let mut f = setup();
    let c = constraints(&f.env);
    let destination = f.destination.clone();
    deposit(&mut f, INTENT_ID, AMOUNT, c);

    f.env.ledger().with_mut(|l| l.timestamp += ONE_HOUR * 2);
    try_refund(&mut f, INTENT_ID).unwrap();

    let err = try_release(&mut f, INTENT_ID, &destination, AMOUNT).unwrap_err();
    assert_eq!(err, Error::IntentNotFunded);
}

// --- initialisation --------------------------------------------------------

/// A rotatable settlement address would let whoever can rotate it redirect
/// every escrow in the contract.
#[test]
fn initialise_cannot_be_called_twice() {
    let mut f = setup();
    let other = Address::generate(&f.env);

    let err = f.escrow.initialise(strkey(&other)).unwrap_err();
    assert_eq!(err, Error::AlreadyInitialised);
    assert_eq!(f.escrow.settlement().unwrap(), strkey(&f.settlement));
}

// --- accounting ------------------------------------------------------------

/// Two intents must not be able to spend each other's funds.
#[test]
fn intents_are_isolated() {
    let mut f = setup();
    let c = constraints(&f.env);
    let destination = f.destination.clone();

    deposit(&mut f, INTENT_ID, AMOUNT, c.clone());
    deposit(&mut f, "intent-2", AMOUNT, c);

    try_release(&mut f, INTENT_ID, &destination, AMOUNT).unwrap();

    let remaining = get_intent(&f, "intent-2");
    assert_eq!(remaining.amount, AMOUNT);
    assert_eq!(remaining.status, Status::Funded);
    assert_eq!(f.token.balance(&f.escrow_address), AMOUNT);
}

/// No sequence of operations may leave the contract holding value that nobody
/// can withdraw.
#[test]
fn funds_are_never_stranded() {
    let mut f = setup();
    let c = constraints(&f.env);
    let destination = f.destination.clone();

    for (i, release_it) in [true, false].iter().enumerate() {
        let id = if i == 0 { "strand-a" } else { "strand-b" };
        deposit(&mut f, id, AMOUNT, c.clone());

        if *release_it {
            try_release(&mut f, id, &destination, AMOUNT).unwrap();
        } else {
            f.env.ledger().with_mut(|l| l.timestamp += ONE_HOUR * 2);
            try_refund(&mut f, id).unwrap();
        }
    }

    assert_eq!(f.token.balance(&f.escrow_address), 0);
}

/// A release of less than the escrowed amount pays the rest back to the
/// depositor, so the settled intent leaves nothing in the escrow.
#[test]
fn partial_release_returns_the_rest_to_the_depositor() {
    let mut f = setup();
    let c = constraints(&f.env);
    let destination = f.destination.clone();
    deposit(&mut f, INTENT_ID, AMOUNT, c);
    try_release(&mut f, INTENT_ID, &destination, AMOUNT - 1).unwrap();

    assert_eq!(f.token.balance(&f.destination), AMOUNT - 1);
    assert_eq!(f.token.balance(&f.depositor), AMOUNT * 9 + 1);
    assert_eq!(f.token.balance(&f.escrow_address), 0);
    f.env.ledger().with_mut(|l| l.timestamp += ONE_HOUR * 2);
    assert_eq!(try_refund(&mut f, INTENT_ID).unwrap_err(), Error::IntentNotFunded);
}

/// A release of nothing settles the intent and pays the whole amount back
/// to the depositor; a negative amount is one the token transfer traps on.
#[test]
fn release_of_nothing_returns_everything_to_the_depositor() {
    let mut f = setup();
    let c = constraints(&f.env);
    let destination = f.destination.clone();
    deposit(&mut f, INTENT_ID, AMOUNT, c);

    assert!(f.escrow.release_traps(INTENT_ID.to_string(), -1));
    assert!(!f.escrow.release_traps(INTENT_ID.to_string(), 0));
    try_release(&mut f, INTENT_ID, &destination, 0).unwrap();

    assert_eq!(f.token.balance(&f.destination), 0);
    assert_eq!(f.token.balance(&f.depositor), AMOUNT * 10);
    assert_eq!(f.token.balance(&f.escrow_address), 0);
    assert_eq!(get_intent(&f, INTENT_ID).status, Status::Released);
}

/// Unused in assertions, but proves the fixture mints through the real Stellar
/// asset contract rather than a mock that might diverge from live behaviour.
#[test]
fn token_admin_can_mint() {
    let f = setup();
    let other = Address::generate(&f.env);

    f.token_admin.mint(&other, &1_000);
    assert_eq!(f.token.balance(&other), 1_000);
}
