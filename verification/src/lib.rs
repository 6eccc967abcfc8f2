//! Compliance primitives for permissioned tokens: a denylist gate, an
//! allowlist-gated token front, per-address jurisdiction flags, and an
//! example token that consults a denylist gate.

pub mod address;
pub mod address_map;
pub mod allowlist_token;
pub mod denylist_gate;
pub mod denylist_gate_consumer;
pub mod history;
pub mod jurisdiction_flag;
pub mod pausable;
