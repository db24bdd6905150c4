# cloud-core

Protocol types shared by cloud-manager, agent-manager, tokengateway and
workflow-manager.

- `src/` — the verified library (Verus): the types, their defaults, the text
  names of the enums, `Tier == &str`, route rule normalization and the
  layout of fallback rewrite models, each with a contract, plus proof
  functions for the laws across them.
- `app/` — the wire form: serde copies of the library's types with `From` in
  both directions, `Display`, and the types that hold floating point or
  chrono timestamps (`Task`, `StatusPush`, `StatusPushPayload`, `CallRecord`).
  Field defaults on the wire come from the library's `Default` impls.
- `tests/` — tests of the library on concrete values.
