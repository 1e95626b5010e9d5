//! A limited-capacity claim ticketing library.
//!
//! One shared `Counter` holds a fixed capacity and a start time; distinct
//! principals may each claim at most one slot and may later cancel that
//! claim. The state-transition logic — the invariants around capacity,
//! uniqueness, timing, and authorization — is verified. The hosting
//! environment (authenticated identities, the clock, record addressing,
//! event delivery) stays outside the library and hands in plain values.

pub mod errors;
pub mod events;
pub mod laws;
pub mod ops;
pub mod state;
pub mod stores;
