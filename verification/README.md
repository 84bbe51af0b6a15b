# subvt

Types and decoding logic for Substrate-based networks (Kusama, Polkadot, Westend), written
in Verus. Verus proves the functions under `src/` against their contracts. The calls into
outside crates (SCALE decoding, hashing, hex, SS58, number formatting) stand behind small
wrappers marked `#[verifier::external_body]`: their contracts, which the doc comment above
each one states in words, are believed, not proved.

## Layout

- `src/codec.rs`, `src/field.rs`, `src/bits.rs`: SCALE primitives and the walk over a value
  that a runtime type registry describes.
- `src/metadata.rs`: the runtime metadata model, its constants and the type-code report.
- `src/event.rs`, `src/dispatch.rs`, `src/dispatch_events.rs`, `src/referendum_events.rs`:
  event records and the events that SubVT follows.
- `src/extrinsic.rs`: signed headers, the calls that SubVT follows, and the calls that
  batches, multisig and proxy calls carry.
- `src/staking.rs`, `src/identity.rs`, `src/digest.rs`, `src/para.rs`, `src/storage.rs`:
  storage records, identities, block authorship, parachain assignments and storage keys.
- `src/substrate.rs`, `src/subvt.rs`, `src/report.rs`, `src/telegram.rs`,
  `src/governance.rs`, `src/app.rs`, `src/records.rs`, `src/service.rs`, `src/server.rs`:
  the domain records and the summaries that the services publish.
- `src/diff.rs`: the changes between two versions of a validator's details.
- `src/laws.rs`: properties of the library as a whole.
- `tests/`: tests on concrete values.
- `app/`: the validator details server: configuration, Redis, the WebSocket RPC interface,
  JSON forms of the records, and the parts that work on floating-point numbers or dates.
