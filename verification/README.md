# noleader

Leader election over a shared key-value store (NATS KeyValue or Postgres):
any number of candidates compete for one key; the one whose identity the key
holds, read back after a settling interval, is the leader, and it renews its
claim on each round.

## Layout

- `src/` — the verified library (Verus).
  - `identity.rs` — the election key and the candidates' identities (UUIDs held
    as 128-bit values), their byte and text forms, and the calls into `uuid`.
  - `election.rs` — one candidate's rounds as a state machine: `start` begins
    a round, `resume` takes the outcome of each read, write or wait; the laws of
    a campaign and of a renewal are proved over its transition function.
  - `supervisor.rs` — the reported status and the back-off between rounds.
  - `store.rs`, `nats.rs`, `postgres.rs` — what the two stores' answers mean:
    decoding the stored holder, the revision kept for compare-and-set writes,
    and which answers are errors.
- `app/` — the asynchronous shell: the `Leader` handle, the `Backend` trait and
  the NATS and Postgres backends, which perform the I/O that the library asks
  for and hand back its outcome.
- `tests/` — tests of the library on concrete values.
