# storage_executor

The decision core of a guarded storage executor for Linux: what has to hold before a partition, a
physical volume, a logical volume or a filesystem may be grown, which exact command grows it, and
what has to be true afterwards before the next step may start.

The library performs no I/O. What a host says of a path, a device, a tool or a process comes in as a
plain value, and every decision over it carries a contract that Verus proves. Storage mutation is
switched off: `MUTATION_ENABLED` is `false`, and the library proves that no launch gets past it.

## Layout

- `src/` is the verified library.
  - `model`, `text`, `paths`, `order`, `json`, `json_reading`, `digest`, `graph` hold the data and the mathematics that
    the rules are stated over.
  - `host_lock`, `locked_session`, `journal_store`, `secure_directory` hold the rules of one locked
    session and of its durable journal.
  - `backup_manifest`, `backup_capture`, `filesystem_health`, `precondition_evidence`,
    `preconditions`, `approval`, `execution_intent`, `native_operation` lead from a frozen handoff to a
    validated native manifest.
  - `disposable_*`, `harness_args` and `harness_preparation` grow a loop device that the harness owns.
  - `privileged_*` and `production_arm` are the chain of receipts in front of a privileged launch.
- `app/` is the program around the library: locks, files, processes, JSON records, and the two
  binaries' entry points. The storage planner comes in through its `Planner` trait.
- `tests/` runs the library on concrete values.

## Tamper evidence

Receipts, permits, manifests and requests carry an identifier: the SHA-256 of a JSON form of their
content. `json_reading` proves that such a form can be read back, so every module proves of its own
records that a changed field under the same identifier is noticed, short of a SHA-256 collision. The
identifier of a helper request does not cover its target and device; those are compared with the live
identity.

## What is trusted

The SHA-256 of `sha2`, the string literals of `serde_json`, the two wait-status readers of `libc`, and
`String::push` and `String::from_utf8_lossy` of the standard library. Each stands behind one
declaration with a comment that says what is taken from it.
