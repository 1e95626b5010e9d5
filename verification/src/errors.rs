//! The error taxonomy. Every failure is synchronous and typed; each variant
//! names exactly one rejection condition.

use vstd::prelude::*;

verus! {

/// The stable, enumerable failure codes of the library.
#[derive(Clone, Copy, PartialEq, Eq, Structural, Debug)]
pub enum CustomError {
    /// A unique record already occupies the derived location.
    AlreadyExists,
    /// A claim was attempted with no remaining slot, or an internal
    /// underflow would otherwise occur.
    SoldOut,
    /// A claim was attempted before the counter's start time.
    NotStarted,
    /// The principal already holds a receipt for this counter.
    DuplicateClaim,
    /// A cancel was attempted by a principal who is not the receipt's
    /// recorded claimer.
    Unauthorized,
    /// A cancel was attempted while `remaining` already equals `capacity`.
    AtCapacity,
    /// An internal increment would exceed the representable range. Defensive:
    /// the capacity check already rules this out, so no operation of this
    /// library ever returns it.
    Overflow,
}

impl CustomError {
    /// The human-readable message of each variant.
    pub open spec fn spec_message(self) -> Seq<char> {
        match self {
            CustomError::AlreadyExists => "Already exists"@,
            CustomError::SoldOut => "Sold out"@,
            CustomError::NotStarted => "Claiming has not started yet"@,
            CustomError::DuplicateClaim => "Duplicate claim"@,
            CustomError::Unauthorized => "Unauthorized"@,
            CustomError::AtCapacity => "Counter at capacity"@,
            CustomError::Overflow => "Counter overflow"@,
        }
    }

    /// A human-readable message, surfaced verbatim to the caller.
    pub fn message(&self) -> (m: &'static str)
        ensures
            m@ == self.spec_message(),
    {
        match self {
            CustomError::AlreadyExists => "Already exists",
            CustomError::SoldOut => "Sold out",
            CustomError::NotStarted => "Claiming has not started yet",
            CustomError::DuplicateClaim => "Duplicate claim",
            CustomError::Unauthorized => "Unauthorized",
            CustomError::AtCapacity => "Counter at capacity",
            CustomError::Overflow => "Counter overflow",
        }
    }
}

} // verus!
