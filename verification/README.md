# intent_escrow

Custody rules for an intent escrow on Stellar, verified with Verus.

User capital is held against an intent from deposit until the settlement
contract releases it to an execution destination (with whatever is not
released going back to the depositor), or until anyone refunds it to the
recorded depositor after the deadline. The library also names who must
authorise each operation: the depositor for a deposit, the bound settlement
contract for a release, nobody for a refund.

- `src/types.rs` — statuses, errors, constraints, intents and the token
  movements the escrow asks for.
- `src/model.rs` — the escrow as a state machine over mathematical values:
  what each request does to the state and what it answers, plus sequences
  of requests and the accounting of what the escrow owes.
- `src/escrow.rs` — the executable escrow, each operation proved to follow
  the state machine.
- `src/laws.rs` — properties proved over any state and any sequence of
  requests: the settlement binding is never rotated, an intent is consumed
  before its funds move, intents are isolated, refunds always pay the
  depositor, only the settlement contract can authorise a release, and the
  escrow's token balance moves exactly with what it owes, so no value is
  ever stranded.
- `app/lib.rs` — the Soroban contract: authorisation, ledger storage and
  time-to-live, the ledger clock and the token calls around the library.
- `tests/` — scenarios against a real Stellar asset contract, and checks of
  the state machine on concrete values.
