//! The data model: principals, the shared counter, per-principal receipts,
//! and the well-formedness invariant tying them together.

use vstd::prelude::*;

verus! {

/// An authenticated caller identity (claimer or admin). The host verifies
/// authenticity before the core logic runs; the library only compares
/// identities for equality, so an opaque integer identifier suffices.
#[derive(Clone, Copy, PartialEq, Eq, Structural, Debug)]
pub struct Principal {
    pub id: u64,
}

/// The shared record tracking total capacity and remaining claimable slots
/// for one admin's campaign. The counter is addressed deterministically from
/// its admin's identity, so `admin` doubles as the counter's identity.
#[derive(Clone, Copy, PartialEq, Eq, Structural, Debug)]
pub struct Counter {
    /// Identity of the creator; immutable after creation.
    pub admin: Principal,
    /// Maximum simultaneous claims; immutable after creation.
    pub capacity: u64,
    /// Instant before which claims are rejected; immutable after creation.
    pub start_time: i64,
    /// Unclaimed slots; decremented by claim, incremented by cancel.
    pub remaining: u64,
}

/// The per-principal record proving an active claim; its existence is the
/// sole uniqueness and ownership mechanism.
#[derive(Clone, Copy, PartialEq, Eq, Structural, Debug)]
pub struct ClaimReceipt {
    /// Identity of the principal holding the claim; immutable.
    pub claimer: Principal,
    /// Timestamp of claim creation; immutable.
    pub claimed_at: i64,
}

/// One counter together with its receipt store. Receipts are addressed by
/// their claimer: at most one receipt per principal in a well-formed state.
pub struct CounterState {
    pub counter: Counter,
    pub receipts: Vec<ClaimReceipt>,
}

/// No two receipts belong to the same principal.
pub open spec fn receipts_distinct(rs: Seq<ClaimReceipt>) -> bool {
    forall|i: int, j: int| 0 <= i < j < rs.len() ==> rs[i].claimer != rs[j].claimer
}

/// Some receipt in the store belongs to `p`.
pub open spec fn holds_claimer(rs: Seq<ClaimReceipt>, p: Principal) -> bool {
    exists|i: int| 0 <= i < rs.len() && rs[i].claimer == p
}

impl CounterState {
    /// Some principal holds an active receipt.
    pub open spec fn has_receipt(self, p: Principal) -> bool {
        holds_claimer(self.receipts@, p)
    }

    /// Well-formedness: `remaining` never exceeds `capacity`, the number of
    /// live receipts is exactly the number of slots handed out, and no
    /// principal holds two receipts.
    pub open spec fn wf(self) -> bool {
        &&& self.counter.remaining <= self.counter.capacity
        &&& self.receipts@.len() == self.counter.capacity - self.counter.remaining
        &&& receipts_distinct(self.receipts@)
    }
}

/// Looks a receipt up by its claimer, returning the position of the first
/// match, if any.
pub fn find_receipt(receipts: &Vec<ClaimReceipt>, p: Principal) -> (r: Option<usize>)
    ensures
        match r {
            Some(i) => i < receipts@.len() && receipts@[i as int].claimer == p
                && (forall|j: int| 0 <= j < i ==> receipts@[j].claimer != p),
            None => forall|j: int| 0 <= j < receipts@.len() ==> receipts@[j].claimer != p,
        },
{
    let mut i: usize = 0;
    while i < receipts.len()
        invariant
            i <= receipts@.len(),
            forall|j: int| 0 <= j < i ==> receipts@[j].claimer != p,
        decreases receipts@.len() - i,
    {
        if receipts[i].claimer == p {
            return Some(i);
        }
        i = i + 1;
    }
    None
}

impl CounterState {
    /// Whether `p` currently holds an active receipt for this counter.
    pub fn holds_receipt(&self, p: Principal) -> (r: bool)
        ensures
            r == self.has_receipt(p),
    {
        match find_receipt(&self.receipts, p) {
            Some(_) => true,
            None => false,
        }
    }
}

} // verus!
