# casper_node_logic

The decision logic of a Casper blockchain node and its Wasm execution
stack, written in Verus. The functions in `src/` carry contracts that
Verus proves, except a few small wrappers around outside crates (hashing,
serialization, hex encoding, path handling, random choice and a linked hash
map), marked `#[verifier::external_body]`, whose contracts state what those
crates document and are trusted.

Networking, storage, the virtual machine and other outside work are not
performed here. Where a component alternates such work with decisions, the
library holds the decisions as functions from a state and an event to the
next state and the action to take; the caller performs the action and
hands its outcome back.

Layout:

- `src/` — the verified library, one module per component (block chain
  index, block executor, consensus vertex handling, acceptors, fetcher,
  network peer bookkeeping and gossip choice, executor decisions, Wasm
  gatekeeper, contract storage collections, the tracking copy's cache and
  path queries, and smaller types).
- `tests/` — ordinary Rust tests of the library.
- `app/` — `cargo-casper build`: runs cargo and copies the contract's Wasm,
  with the build arguments and artifact choice taken from the library.
