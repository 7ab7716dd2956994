# DA Spammer

Two programs that stress-test data availability on an Avail node, on top of a library whose
decisions are verified with Verus.

- `da-spammer` submits batches of blobs from one development account.
- `da-sybil-spammer` derives many accounts, funds them in batches, and submits blobs from them in
  turn.

## Layout

- `src/` is the verified library.
  - `account`: development accounts, and sybil accounts derived from `//da-spammer/<index>`.
  - `blob`: blob contents, hash, and the metadata that is signed.
  - `retry`: one submission as a state machine, with backoff and nonce refresh.
  - `rpc_error`: reading the messages with which a node rejects a submission.
  - `nonce`, `pacing`, `stats`: nonce counters, the rate cap, and the counts.
  - `spammer`, `sybil`: the state and the plans of the two programs.
  - `config`, `report`, `text`: settings, outcome lines, and text helpers.
- `app/` is the executable: arguments, signals, tasks, the node, the polynomial commitment, and
  everything in floating point. It is one executable; the name it is started under selects the
  program.
- `tests/` runs the library.

To build the executable, `avail_fri` and the feature `reqwest` of `avail-rust-client` are needed
besides what `Cargo.toml` names; the library needs neither.

## What is proved

Each function states what it returns. On top of that there are proofs about whole runs: a
submission ends after a bounded number of events, a success is its last event, and it reports a
failure only when its retries are used up; its pauses are those of the backoff and its nonce is
the one the chain reported last; no nonce but the last of the range is handed out twice; every
outcome is counted once; every account is funded once; accounts take turns; blobs of eight bytes
or more with different indices differ; dispatches keep their distance; the case of ASCII letters
in names and messages plays no role.

## What is trusted

The contracts of the calls into `avail-rust-client` (key derivation, development accounts, the
AVAIL unit), `sp-crypto-hashing` (Keccak-256), `num_cpus`, and of `str::to_lowercase` and
`str::contains`.
