//! The two record stores beneath the operations. The counter store owns the
//! capacity-tracking record and moves `remaining` by exactly one, with
//! checked arithmetic whose defensive failure arms are proved unreachable.
//! The receipt store owns the per-principal claim records; a creation attempt
//! for an occupied location fails, which is what enforces one claim per
//! principal.

use vstd::prelude::*;

use crate::errors::CustomError;
use crate::state::{ClaimReceipt, Counter, Principal, find_receipt, holds_claimer};

verus! {

impl Counter {
    /// Takes one slot: requires a slot to remain (else `SoldOut`) and the
    /// start time to have passed (else `NotStarted`), then decrements
    /// `remaining` by exactly one. The checked subtraction's failure arm maps
    /// to `SoldOut`, but the availability check already makes it unreachable.
    pub fn decrement(&mut self, now: i64) -> (r: Result<(), CustomError>)
        ensures
            match r {
                Ok(()) => old(self).remaining > 0 && now >= old(self).start_time
                    && *final(self) == (Counter {
                    admin: old(self).admin,
                    capacity: old(self).capacity,
                    start_time: old(self).start_time,
                    remaining: (old(self).remaining - 1) as u64,
                }),
                Err(e) => *final(self) == *old(self) && e == (if old(self).remaining == 0 {
                    CustomError::SoldOut
                } else {
                    CustomError::NotStarted
                }) && !(old(self).remaining > 0 && now >= old(self).start_time),
            },
    {
        if self.remaining == 0 {
            return Err(CustomError::SoldOut);
        }
        if now < self.start_time {
            return Err(CustomError::NotStarted);
        }
        match self.remaining.checked_sub(1) {
            Some(v) => {
                self.remaining = v;
                Ok(())
            },
            None => {
                proof {
                    assert(false);
                }
                Err(CustomError::SoldOut)
            },
        }
    }

    /// Returns one slot: requires room below `capacity` (else `AtCapacity`),
    /// then increments `remaining` by exactly one. The checked addition's
    /// failure arm maps to `Overflow`, but the capacity check already makes
    /// it unreachable, so `Overflow` is never returned.
    pub fn increment(&mut self) -> (r: Result<(), CustomError>)
        ensures
            match r {
                Ok(()) => old(self).remaining < old(self).capacity
                    && *final(self) == (Counter {
                    admin: old(self).admin,
                    capacity: old(self).capacity,
                    start_time: old(self).start_time,
                    remaining: (old(self).remaining + 1) as u64,
                }),
                Err(e) => *final(self) == *old(self) && e == CustomError::AtCapacity
                    && old(self).remaining >= old(self).capacity,
            },
    {
        if self.remaining >= self.capacity {
            return Err(CustomError::AtCapacity);
        }
        match self.remaining.checked_add(1) {
            Some(v) => {
                self.remaining = v;
                Ok(())
            },
            None => {
                proof {
                    assert(false);
                }
                Err(CustomError::Overflow)
            },
        }
    }
}

/// Creates the receipt for `claimer`, stamped `now`. Fails with
/// `DuplicateClaim` when a receipt for the same principal already occupies
/// the store — enforced structurally by the occupancy check, not left to the
/// callers.
pub fn create_receipt(receipts: &mut Vec<ClaimReceipt>, claimer: Principal, now: i64) -> (r:
    Result<(), CustomError>)
    ensures
        match r {
            Ok(()) => !holds_claimer(old(receipts)@, claimer)
                && final(receipts)@ == old(receipts)@.push(ClaimReceipt {
                claimer,
                claimed_at: now,
            }),
            Err(e) => holds_claimer(old(receipts)@, claimer) && e == CustomError::DuplicateClaim
                && *final(receipts) == *old(receipts),
        },
{
    match find_receipt(receipts, claimer) {
        Some(_) => Err(CustomError::DuplicateClaim),
        None => {
            receipts.push(ClaimReceipt { claimer, claimed_at: now });
            Ok(())
        },
    }
}

/// Destroys the receipt located from `receipt_for`. Fails with
/// `Unauthorized` when the caller is not the receipt's recorded claimer; on
/// success the record is removed for good.
pub fn destroy_receipt(
    receipts: &mut Vec<ClaimReceipt>,
    receipt_for: Principal,
    expected_owner: Principal,
) -> (r: Result<(), CustomError>)
    requires
        holds_claimer(old(receipts)@, receipt_for),
    ensures
        match r {
            Ok(()) => receipt_for == expected_owner && (exists|i: int|
                0 <= i < old(receipts)@.len() && old(receipts)@[i].claimer == receipt_for
                    && final(receipts)@ == old(receipts)@.remove(i)),
            Err(e) => receipt_for != expected_owner && e == CustomError::Unauthorized
                && *final(receipts) == *old(receipts),
        },
{
    let idx = match find_receipt(receipts, receipt_for) {
        Some(i) => i,
        None => {
            proof {
                assert(false);
            }
            return Err(CustomError::Unauthorized);
        },
    };
    if receipts[idx].claimer != expected_owner {
        return Err(CustomError::Unauthorized);
    }
    receipts.remove(idx);
    Ok(())
}

} // verus!
