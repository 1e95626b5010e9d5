//! The three operations of the ticketing state machine — initialize, claim,
//! cancel — with spec-level transition predicates that pin down exactly when
//! each succeeds, which error it returns otherwise, and how the state moves.

use vstd::prelude::*;

use crate::errors::CustomError;
use crate::events::{CancelEvent, ClaimEvent};
use crate::laws;
use crate::state::{ClaimReceipt, Counter, CounterState, Principal, find_receipt};
use crate::stores::{create_receipt, destroy_receipt};

verus! {

/// A freshly initialized state: every slot unclaimed, no receipts.
pub open spec fn initialized(
    s: CounterState,
    admin: Principal,
    capacity: u64,
    start_time: i64,
) -> bool {
    &&& s.counter == (Counter { admin, capacity, start_time, remaining: capacity })
    &&& s.receipts@ == Seq::<ClaimReceipt>::empty()
}

/// A claim goes through exactly when a slot is free, claiming has started,
/// and the principal holds no receipt yet.
pub open spec fn claim_allowed(s: CounterState, claimer: Principal, now: i64) -> bool {
    &&& s.counter.remaining > 0
    &&& now >= s.counter.start_time
    &&& !s.has_receipt(claimer)
}

/// The error of a rejected claim: availability is checked first, then the
/// start time, then uniqueness.
pub open spec fn claim_error(s: CounterState, claimer: Principal, now: i64) -> CustomError {
    if s.counter.remaining == 0 {
        CustomError::SoldOut
    } else if now < s.counter.start_time {
        CustomError::NotStarted
    } else {
        CustomError::DuplicateClaim
    }
}

/// The effect of a successful claim: `remaining` drops by one, a receipt for
/// the claimer is appended, and the event carries the post-decrement count.
pub open spec fn claim_step(
    pre: CounterState,
    post: CounterState,
    ev: ClaimEvent,
    claimer: Principal,
    now: i64,
) -> bool {
    &&& post.counter == (Counter {
        admin: pre.counter.admin,
        capacity: pre.counter.capacity,
        start_time: pre.counter.start_time,
        remaining: (pre.counter.remaining - 1) as u64,
    })
    &&& post.receipts@ == pre.receipts@.push(ClaimReceipt { claimer, claimed_at: now })
    &&& ev == (ClaimEvent {
        claimer,
        counter: pre.counter.admin,
        remaining: post.counter.remaining,
    })
}

/// A cancel goes through exactly when the caller is the receipt's recorded
/// claimer and a slot can still be returned to the pool.
pub open spec fn cancel_allowed(
    s: CounterState,
    receipt_for: Principal,
    claimer: Principal,
) -> bool {
    &&& receipt_for == claimer
    &&& s.counter.remaining < s.counter.capacity
}

/// The error of a rejected cancel: ownership is checked first, then room.
pub open spec fn cancel_error(
    s: CounterState,
    receipt_for: Principal,
    claimer: Principal,
) -> CustomError {
    if receipt_for != claimer {
        CustomError::Unauthorized
    } else {
        CustomError::AtCapacity
    }
}

/// The effect of a successful cancel: the receipt is destroyed, `remaining`
/// rises by one, and the event carries the post-increment count.
pub open spec fn cancel_step(
    pre: CounterState,
    post: CounterState,
    ev: CancelEvent,
    receipt_for: Principal,
) -> bool {
    &&& exists|i: int|
        0 <= i < pre.receipts@.len() && pre.receipts@[i].claimer == receipt_for
            && post.receipts@ == pre.receipts@.remove(i)
    &&& post.counter == (Counter {
        admin: pre.counter.admin,
        capacity: pre.counter.capacity,
        start_time: pre.counter.start_time,
        remaining: (pre.counter.remaining + 1) as u64,
    })
    &&& ev == (CancelEvent {
        claimer: receipt_for,
        counter: pre.counter.admin,
        remaining: post.counter.remaining,
    })
}

/// Creates the counter with every slot unclaimed. The slot models the
/// deterministically derived storage location for this admin: creation is an
/// insert-if-absent, and a second initialization fails with `AlreadyExists`
/// and changes nothing. Zero-capacity counters are permitted (they are
/// permanently sold out), and any start time — past, present, or future —
/// is valid.
pub fn initialize_counter(
    slot: &mut Option<CounterState>,
    admin: Principal,
    capacity: u64,
    start_time: i64,
) -> (r: Result<(), CustomError>)
    ensures
        (*old(slot)) is Some ==> r == Result::<(), CustomError>::Err(CustomError::AlreadyExists)
            && *final(slot) == *old(slot),
        (*old(slot)) is None ==> r is Ok && ((*final(slot)) matches Some(s)
            && initialized(s, admin, capacity, start_time) && s.wf()),
{
    if slot.is_some() {
        return Err(CustomError::AlreadyExists);
    }
    let counter = Counter { admin, capacity, start_time, remaining: capacity };
    let state = CounterState { counter, receipts: Vec::new() };
    *slot = Some(state);
    Ok(())
}

/// Reserves one slot for `claimer` at time `now`.
///
/// Succeeds exactly when a slot remains, claiming has started, and the
/// claimer holds no receipt yet; then `remaining` drops by one, a receipt is
/// created, and the returned event is to be emitted by the host. A failed
/// claim returns the first applicable error — `SoldOut`, then `NotStarted`,
/// then `DuplicateClaim` — and leaves the state untouched. Well-formedness
/// is preserved either way.
pub fn claim(state: &mut CounterState, claimer: Principal, now: i64) -> (r: Result<
    ClaimEvent,
    CustomError,
>)
    ensures
        match r {
            Ok(ev) => claim_allowed(*old(state), claimer, now)
                && claim_step(*old(state), *final(state), ev, claimer, now),
            Err(e) => !claim_allowed(*old(state), claimer, now)
                && e == claim_error(*old(state), claimer, now)
                && *final(state) == *old(state),
        },
        old(state).wf() ==> final(state).wf(),
{
    match state.counter.decrement(now) {
        Ok(()) => (),
        Err(e) => {
            return Err(e);
        },
    }
    match create_receipt(&mut state.receipts, claimer, now) {
        Ok(()) => (),
        Err(e) => {
            // The decrement and the receipt creation are one atomic unit:
            // an unclaimed principal's slot must not be lost, so the
            // decrement is rolled back before the failure is surfaced.
            state.counter.remaining = state.counter.remaining + 1;
            return Err(e);
        },
    }
    let ev = ClaimEvent {
        claimer,
        counter: state.counter.admin,
        remaining: state.counter.remaining,
    };
    proof {
        if old(state).wf() {
            laws::lemma_claim_preserves_invariant(*old(state), *state, ev, claimer, now);
        }
    }
    Ok(ev)
}

/// Releases the slot held by the receipt addressed by `receipt_for`, on
/// behalf of the authenticated `claimer`.
///
/// The host hands in an existing receipt, so one for `receipt_for` is
/// required to exist. Succeeds exactly when the caller is the receipt's
/// claimer and `remaining` is below `capacity`; then the receipt is
/// destroyed, `remaining` rises by one, and the returned event is to be
/// emitted by the host. A failed cancel returns `Unauthorized` or
/// `AtCapacity` — never `Overflow`, which the capacity check already rules
/// out — and leaves the state untouched. Well-formedness is preserved
/// either way.
pub fn cancel(state: &mut CounterState, receipt_for: Principal, claimer: Principal) -> (r: Result<
    CancelEvent,
    CustomError,
>)
    requires
        old(state).has_receipt(receipt_for),
    ensures
        match r {
            Ok(ev) => cancel_allowed(*old(state), receipt_for, claimer)
                && cancel_step(*old(state), *final(state), ev, receipt_for),
            Err(e) => !cancel_allowed(*old(state), receipt_for, claimer)
                && e == cancel_error(*old(state), receipt_for, claimer)
                && *final(state) == *old(state),
        },
        old(state).wf() ==> final(state).wf(),
{
    let idx = match find_receipt(&state.receipts, receipt_for) {
        Some(i) => i,
        None => {
            proof {
                assert(false);
            }
            return Err(CustomError::Unauthorized);
        },
    };
    if state.receipts[idx].claimer != claimer {
        return Err(CustomError::Unauthorized);
    }
    match state.counter.increment() {
        Ok(()) => (),
        Err(e) => {
            return Err(e);
        },
    }
    match destroy_receipt(&mut state.receipts, receipt_for, claimer) {
        Ok(()) => (),
        Err(_) => {
            // Ownership was already verified above, so the destruction
            // cannot be refused; the increment and the destruction stay one
            // atomic unit.
            proof {
                assert(false);
            }
            return Err(CustomError::Unauthorized);
        },
    }
    let ev = CancelEvent {
        claimer: receipt_for,
        counter: state.counter.admin,
        remaining: state.counter.remaining,
    };
    proof {
        if old(state).wf() {
            laws::lemma_cancel_preserves_invariant(
                *old(state),
                *state,
                ev,
                receipt_for,
                claimer,
            );
        }
    }
    Ok(ev)
}

} // verus!
