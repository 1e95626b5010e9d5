//! The general laws of the state machine, each proved once and for all.
//!
//! The well-formedness invariant — `remaining` within `0..=capacity`, the
//! live-receipt count equal to `capacity - remaining`, one receipt per
//! principal — holds in every reachable state by induction: initialization
//! establishes it (the ensures of `ops::initialize_counter`), the two
//! preservation lemmas here carry it through every successful transition,
//! and a failed claim or cancel changes nothing at all (the error arms of
//! the ensures of `ops::claim` and `ops::cancel`). The remaining lemmas pin
//! down uniqueness, ordering, the boundary rejections, and the claim/cancel
//! round trip.

use vstd::prelude::*;

use crate::errors::CustomError;
use crate::events::{CancelEvent, ClaimEvent};
use crate::ops::{
    cancel_allowed, cancel_error, cancel_step, claim_allowed, claim_error, claim_step,
};
use crate::state::{CounterState, Principal};

verus! {

/// Every state reached by a successful claim from a well-formed state is
/// well-formed: `remaining` stays within `0..=capacity`, and the live-receipt
/// count still equals `capacity - remaining`.
pub proof fn lemma_claim_preserves_invariant(
    pre: CounterState,
    post: CounterState,
    ev: ClaimEvent,
    claimer: Principal,
    now: i64,
)
    requires
        pre.wf(),
        claim_allowed(pre, claimer, now),
        claim_step(pre, post, ev, claimer, now),
    ensures
        post.wf(),
{
    let rs = post.receipts@;
    assert forall|i: int, j: int|
        0 <= i < j < rs.len() implies rs[i].claimer != rs[j].claimer by {
        if j == rs.len() - 1 {
            assert(rs[i] == pre.receipts@[i]);
            if rs[i].claimer == claimer {
                assert(pre.has_receipt(claimer));
            }
        } else {
            assert(rs[i] == pre.receipts@[i]);
            assert(rs[j] == pre.receipts@[j]);
        }
    }
}

/// Every state reached by a successful cancel from a well-formed state is
/// well-formed: `remaining` stays within `0..=capacity`, and the live-receipt
/// count still equals `capacity - remaining`.
pub proof fn lemma_cancel_preserves_invariant(
    pre: CounterState,
    post: CounterState,
    ev: CancelEvent,
    receipt_for: Principal,
    claimer: Principal,
)
    requires
        pre.wf(),
        cancel_allowed(pre, receipt_for, claimer),
        cancel_step(pre, post, ev, receipt_for),
    ensures
        post.wf(),
{
    let k = choose|i: int|
        0 <= i < pre.receipts@.len() && pre.receipts@[i].claimer == receipt_for
            && post.receipts@ == pre.receipts@.remove(i);
    let rs = post.receipts@;
    assert forall|i: int, j: int|
        0 <= i < j < rs.len() implies rs[i].claimer != rs[j].claimer by {
        let pi: int = if i < k { i } else { i + 1 };
        let pj: int = if j < k { j } else { j + 1 };
        assert(rs[i] == pre.receipts@[pi]);
        assert(rs[j] == pre.receipts@[pj]);
    }
}

/// Uniqueness: after a successful claim, the same principal cannot claim
/// again. `remaining` reflects exactly the one successful decrement, and —
/// as long as the second attempt is not rejected earlier for availability or
/// timing — the second attempt's error is `DuplicateClaim`. (When the first
/// claim took the last slot, the second attempt fails with `SoldOut`
/// instead, availability being checked first.)
pub proof fn lemma_second_claim_rejected(
    s0: CounterState,
    s1: CounterState,
    ev: ClaimEvent,
    claimer: Principal,
    now1: i64,
    now2: i64,
)
    requires
        claim_allowed(s0, claimer, now1),
        claim_step(s0, s1, ev, claimer, now1),
    ensures
        s1.has_receipt(claimer),
        !claim_allowed(s1, claimer, now2),
        s1.counter.remaining == s0.counter.remaining - 1,
        s1.counter.remaining > 0 && now2 >= s1.counter.start_time ==> claim_error(
            s1,
            claimer,
            now2,
        ) == CustomError::DuplicateClaim,
{
    let last = s0.receipts@.len() as int;
    assert(s1.receipts@[last].claimer == claimer);
}

/// Ordering: a claim before the start time never succeeds and never changes
/// anything; when slots remain, the reported error is `NotStarted`. (With
/// `remaining == 0` the rejection is `SoldOut`, availability being checked
/// first, but the claim still fails.)
pub proof fn lemma_claim_before_start(s: CounterState, claimer: Principal, now: i64)
    requires
        now < s.counter.start_time,
    ensures
        !claim_allowed(s, claimer, now),
        s.counter.remaining > 0 ==> claim_error(s, claimer, now) == CustomError::NotStarted,
{
}

/// Boundary: a claim against an exhausted counter fails with `SoldOut`, at
/// any time and for any principal.
pub proof fn lemma_claim_sold_out(s: CounterState, claimer: Principal, now: i64)
    requires
        s.counter.remaining == 0,
    ensures
        !claim_allowed(s, claimer, now),
        claim_error(s, claimer, now) == CustomError::SoldOut,
{
}

/// Boundary: a cancel by the receipt's own claimer while `remaining` already
/// equals `capacity` fails with `AtCapacity`.
pub proof fn lemma_cancel_at_capacity(s: CounterState, claimer: Principal)
    requires
        s.counter.remaining == s.counter.capacity,
    ensures
        !cancel_allowed(s, claimer, claimer),
        cancel_error(s, claimer, claimer) == CustomError::AtCapacity,
{
}

/// Round trip: from a well-formed state, a successful claim is always
/// followed by a permitted cancel for the same principal, and that cancel
/// restores the counter and the receipt store to exactly their pre-claim
/// values — in particular, the principal holds no receipt afterwards.
pub proof fn lemma_claim_cancel_round_trip(
    s0: CounterState,
    s1: CounterState,
    s2: CounterState,
    claimer: Principal,
    now: i64,
    ev1: ClaimEvent,
    ev2: CancelEvent,
)
    requires
        s0.wf(),
        claim_allowed(s0, claimer, now),
        claim_step(s0, s1, ev1, claimer, now),
        cancel_step(s1, s2, ev2, claimer),
    ensures
        cancel_allowed(s1, claimer, claimer),
        s2.counter == s0.counter,
        s2.receipts@ == s0.receipts@,
        !s2.has_receipt(claimer),
        s2.wf(),
{
    let k = choose|i: int|
        0 <= i < s1.receipts@.len() && s1.receipts@[i].claimer == claimer
            && s2.receipts@ == s1.receipts@.remove(i);
    let last = s0.receipts@.len() as int;
    if k < last {
        assert(s1.receipts@[k] == s0.receipts@[k]);
        assert(s0.has_receipt(claimer));
    }
    assert(k == last);
    assert(s2.receipts@ =~= s0.receipts@);
    assert forall|j: int| 0 <= j < s2.receipts@.len() implies s2.receipts@[j].claimer
        != claimer by {
        if s2.receipts@[j].claimer == claimer {
            assert(s0.has_receipt(claimer));
        }
    }
}

} // verus!
