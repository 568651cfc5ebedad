# stellar_aid

The verified core of a Stellar donation platform, written in Verus.

- `src/` is the library; every function in it is verified but the trusted
  wrappers of `strkey` and `xdr`, whose contracts are stated, not proved:
  - `campaign`, `donation`, `withdrawal`: the three Soroban contracts as
    state machines over an explicit ledger model (`host`: addresses, storage
    keys, the effects a call leaves — auth checks, TTL extensions, events,
    token transfers — and the contract errors). Each entry point returns the
    next state and effects or the error, and never changes anything when it
    refuses. Public `law_*` proof functions state what holds across calls.
  - `donation_status`: the off-chain donation lifecycle and its laws.
  - `amounts`: amount validation and the platform fee.
  - `sdk`: the `donate` transaction the SDK builds, and how Horizon and
    Soroban RPC answers are read; `envelope` writes the transaction in the
    JSON form `stellar-xdr` reads and has it encoded to base64 XDR. `strkey`
    and `xdr` hold the trusted calls into `stellar-strkey` and `stellar-xdr`
    (through `soroban-sdk`).
  - `tx_check`, `webhook`, `config`, `repo`, `worker`, `json`, `text`: the
    backend's transaction check, webhook retry policy, configuration,
    donor display rule, worker defaults, and the JSON and text helpers they
    share.
- `app/` is the unverified shell: environment, SQLite, HTTP, logging and
  the polling loop. It hands the library plain values and acts
  on what comes back.
- `tests/` runs the library on concrete cases.
