# parity_common

Metrics backends with re-entrant timers, and the key derivation, signature
and cipher helpers they ship with, written in Verus.

- `src/` is the verified library: time values and the timer state machine
  (`time`, `timer`), the metrics backends' decisions (`backends`, `metrics`),
  scrypt key derivation, secp256k1 keys and signatures and AES ciphers
  (`crypto`), the metrics macros' grammar and the code they generate, as
  text with places for the user's own tokens (`macros`), and
  the reopen decision of the browser key-value store (`kvdb_web`).
- `app/` runs what cannot be verified around it: the process clock, files,
  locks, background writer threads, JSON logging, and the step from the
  macros' token streams to the library's tokens and back.
- `tests/` exercises the library with concrete values.

The curve operations come from `libsecp256k1`, a pure-Rust implementation
of secp256k1, rather than from a binding to the C library; the AES ciphers
come from the `aes` and `block-modes` crates, and key derivation from
`scrypt`.
