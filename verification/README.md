# acuity_runtime

The configuration core of the Acuity parachain runtime, verified with Verus.

- `config`: the constants the pallets are configured with (block time, slot
  duration, content limits, existential deposit, Aura limits).
- `fees`: the fee model: computation weight is free, each byte costs one unit.
- `runtime_apis`: the runtime APIs implemented, with their identifiers and
  versions (read from the crates that declare them).
- `version`: the runtime and native version records.
- `keyring`: the development accounts and their sr25519 keys (from `sp-keyring`).
- `address`: SS58 addresses of keys (from `sp-core`).
- `json`: JSON text of values, and the pieces written through `serde_json`.
- `patch_json`: the JSON text of a genesis patch whose accounts are addresses.
- `genesis`: the development preset, the preset API and its laws.
- `runtime`: the runtime's answers to node queries that its configuration decides.

`app/` turns preset bytes into `serde_json::Value`s.
