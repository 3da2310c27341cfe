# lib — a verified core for the AMD FidelityFX SDK

`src/` is the verified library (Verus):

- `error.rs` — the SDK's return codes, `FfxError`, `ok_or_error`, and the message of
  every code; proved: each code has a message of its own.
- `decimal.rs` — decimal rendering of integers used in the message of an unknown code,
  proved against a spec and shown injective.
- `types.rs`, `description.rs` — the plain values and the context descriptions the SDK
  creates its effects from.
- `backend.rs` — `Device` (never a null handle) and `BackendInterface`, which owns the
  scratch memory and describes every effect context created through it.

`app/` makes the SDK's C calls (through the bindgen bindings the SDK build produces) and
holds the RAII context types; every decision about their results is the library's.
