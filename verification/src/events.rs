//! Observable events, returned on success for external audit and indexing.
//! The host delivers them; the library only states what they carry.

use vstd::prelude::*;

use crate::state::Principal;

verus! {

/// Emitted once per successful claim, carrying the post-decrement
/// `remaining`. The `counter` field holds the admin identity from which the
/// counter's address is derived.
#[derive(Clone, Copy, PartialEq, Eq, Structural, Debug)]
pub struct ClaimEvent {
    pub claimer: Principal,
    pub counter: Principal,
    pub remaining: u64,
}

/// Emitted once per successful cancel, carrying the post-increment
/// `remaining`. The `counter` field holds the admin identity from which the
/// counter's address is derived.
#[derive(Clone, Copy, PartialEq, Eq, Structural, Debug)]
pub struct CancelEvent {
    pub claimer: Principal,
    pub counter: Principal,
    pub remaining: u64,
}

} // verus!
