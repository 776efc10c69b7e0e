# gpt_webai_lifecycle

The lifecycle rules of a pool of browser slots that run GPT web sessions:
identifiers and event envelopes, the rules of the event journal (strict and
canonical JSON, replay order, source rules, HEAD publishing and the commit
decisions), claims and leases, the slot allocator, artifact download claims,
model-selection proofs, provider requests and replies, and the command line's
argument rules.

Every item under `src/` is written in Verus and verified: each public
function carries a contract over spec functions and views, and the laws that
relate several functions stand as public proof functions beside them.

Layout:

- `src/contracts/` — identifiers, event envelopes and payload rules, typed
  records read out of payloads, the projection records, provider requests
  and replies; `integrity.rs` creates and checks whole events, with their
  payload hash and event id.
- `src/confirmation.rs` — what a provider reply must show to confirm that a
  send started or that an answer is final.
- `src/journal/` — the strict JSON reader and canonical JSON text, reading
  and publishing HEAD, replay order, source payload rules, snapshots and the
  commit decisions.
- `src/claims/`, `src/artifact_claims/`, `src/allocator/` — leases and claims,
  artifact download claims, slot classification.
- `src/cli/` — argument parsing and command outcomes.
- `src/download.rs` — the download run as a state machine.
- `app/` — the program around the library: environment, files and
  processes. It reads HEAD.json and hands the bytes to the library.
- `tests/` — tests on concrete values.

The few calls into other code (SHA-256 from `sha2`, and a handful of `std`
functions) stand behind small trusted wrappers whose doc comments say what
their contracts claim.

What is not here: the projection reducer (the state machine that folds the
journal's events into the projection, with its digest) and the journal's
event, snapshot, projection and lease file stores. They depend on the QA
counters, runtime ownership, slot, session and upload modules, which this
project does not include; for the same reason most commands of the program
stop once their arguments are checked.
