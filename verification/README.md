# asset_classification

The decisions of the Provenance Blockchain asset classification contract, written in Verus and
proved against their contracts.

An account that owns a metadata scope onboards it as an asset type, naming one of the type's
verifiers and paying the verifier's fee; the verifier then approves or denies the classification,
and the stored payments are released. The contract's admin manages the asset definitions and their
verifiers.

## Layout

- `src/types/`: the values that drive classification (access routes, asset definitions, verifiers,
  fees, the attribute written onto a classified scope) with their views.
- `src/address.rs`, `src/text.rs`: bech32 metadata addresses and uuids, trimming, lowercase keys,
  decimal amounts. The outside crates `bech32` and `uuid` are called here, `semver` in
  `src/contract/lifecycle.rs` and `os-gateway-contract-attributes` in `src/contract/gateway.rs`,
  each call behind a trusted wrapper with its contract.
- `src/store.rs`, `src/state.rs`: the stored asset definitions and fee payments, and the
  configuration.
- `src/contract/`: every entry point as a decision over plain values: the stored records, the
  sender and funds, and what the chain reports about the scope concerned (`ScopeFacts`) in; the
  new records and a response of chain messages and event attributes, or the refusal, out.
  `dispatch.rs` routes messages; `onboard.rs`, `verify.rs`, `access_update.rs`,
  `definitions.rs` and `lifecycle.rs` hold the routes; `validation.rs` the checks every message
  passes first; `queries.rs` the read-only lookups.
- `src/laws.rs`: properties spanning several functions, proved.
- `app/`: the CosmWasm entry points: storage through `cw-storage-plus`, chain queries and
  messages through `provwasm-std`, the JSON forms of the values through `serde`.
- `tests/`: the library's tests, run with the outside crates linked.
