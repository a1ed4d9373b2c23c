# matrix_sdk_ffi

The logic of the bindings of the Matrix SDK, verified with Verus: how settings become
plans, how events and errors are classified, which identifiers are accepted, how lists
of rooms are filtered and followed, how log files are named and removed, and how strong
passwords are.

- `src/` is the library. Verus proves the contract of every function in it but the
  small ones marked `#[verifier::external_body]`, which hold what the library takes
  from other crates (`ruma`, `chrono`, `mime`, `serde_json`, `url`, `zxcvbn`): the
  comment above each of those says what is believed of it.
- `tests/` runs the library with those crates.
- `app/` is the ordinary Rust around the library: files, logs, the asynchronous
  runtime, JSON records, and the loops around the SDK, which is behind the traits of
  `app/sdk.rs`.

Public proof functions state laws that relate several functions, for example that the
file that is being written to is never removed (`rolling_writer`), or that an update of
sticky events can be applied again (`sticky_events`).
