use limited_claim::errors::CustomError;
use limited_claim::ops::{cancel, claim, initialize_counter};
use limited_claim::state::{ClaimReceipt, Counter, CounterState, Principal};

fn p(id: u64) -> Principal {
    Principal { id }
}

fn fresh(capacity: u64, start_time: i64) -> CounterState {
    let mut slot: Option<CounterState> = None;
    let r = initialize_counter(&mut slot, p(1), capacity, start_time);
    assert!(r.is_ok());
    slot.unwrap()
}

#[test]
fn initialize_sets_all_fields() {
    let st = fresh(5, 40);
    assert_eq!(st.counter.admin, p(1));
    assert_eq!(st.counter.capacity, 5);
    assert_eq!(st.counter.start_time, 40);
    assert_eq!(st.counter.remaining, 5);
    assert_eq!(st.receipts.len(), 0);
}

#[test]
fn initialize_twice_fails_already_exists() {
    let mut slot: Option<CounterState> = None;
    assert!(initialize_counter(&mut slot, p(1), 3, 0).is_ok());
    let r = initialize_counter(&mut slot, p(1), 7, 9);
    assert_eq!(r, Err(CustomError::AlreadyExists));
    let st = slot.unwrap();
    assert_eq!(st.counter.capacity, 3);
    assert_eq!(st.counter.start_time, 0);
    assert_eq!(st.counter.remaining, 3);
}

#[test]
fn initialize_with_past_start_time_is_valid() {
    let st = fresh(1, -50);
    assert_eq!(st.counter.start_time, -50);
}

#[test]
fn claim_success_decrements_and_records_receipt() {
    let mut st = fresh(3, 100);
    let r = claim(&mut st, p(7), 150);
    let ev = r.unwrap();
    assert_eq!(st.counter.remaining, 2);
    assert_eq!(st.receipts.len(), 1);
    assert_eq!(st.receipts[0], ClaimReceipt { claimer: p(7), claimed_at: 150 });
    assert_eq!(ev.claimer, p(7));
    assert_eq!(ev.counter, p(1));
    assert_eq!(ev.remaining, 2);
}

#[test]
fn claim_at_exact_start_time_succeeds() {
    let mut st = fresh(1, 100);
    assert!(claim(&mut st, p(7), 100).is_ok());
    assert_eq!(st.counter.remaining, 0);
}

#[test]
fn claim_before_start_fails_not_started() {
    let mut st = fresh(4, 100);
    let r = claim(&mut st, p(7), 99);
    assert_eq!(r, Err(CustomError::NotStarted));
    assert_eq!(st.counter.remaining, 4);
    assert_eq!(st.receipts.len(), 0);
}

#[test]
fn claim_when_sold_out_fails_regardless_of_time() {
    let mut st = fresh(1, 100);
    assert!(claim(&mut st, p(7), 100).is_ok());
    let r = claim(&mut st, p(8), 500);
    assert_eq!(r, Err(CustomError::SoldOut));
    assert_eq!(st.counter.remaining, 0);
    assert_eq!(st.receipts.len(), 1);
}

#[test]
fn zero_capacity_counter_is_permanently_sold_out() {
    let mut st = fresh(0, 100);
    let r = claim(&mut st, p(7), 200);
    assert_eq!(r, Err(CustomError::SoldOut));
    assert_eq!(st.counter.remaining, 0);
}

#[test]
fn sold_out_takes_precedence_over_not_started() {
    let mut st = fresh(0, 100);
    let r = claim(&mut st, p(7), 50);
    assert_eq!(r, Err(CustomError::SoldOut));
}

#[test]
fn second_claim_by_same_principal_fails_duplicate() {
    let mut st = fresh(3, 100);
    assert!(claim(&mut st, p(7), 150).is_ok());
    let r = claim(&mut st, p(7), 160);
    assert_eq!(r, Err(CustomError::DuplicateClaim));
    assert_eq!(st.counter.remaining, 2);
    assert_eq!(st.receipts.len(), 1);
}

#[test]
fn largest_capacity_counter_accepts_a_claim() {
    let mut st = fresh(u64::MAX, 0);
    let ev = claim(&mut st, p(7), 1).unwrap();
    assert_eq!(ev.remaining, u64::MAX - 1);
    assert_eq!(st.counter.remaining, u64::MAX - 1);
}

#[test]
fn cancel_restores_slot_and_destroys_receipt() {
    let mut st = fresh(2, 100);
    assert!(claim(&mut st, p(7), 150).is_ok());
    let r = cancel(&mut st, p(7), p(7));
    let ev = r.unwrap();
    assert_eq!(st.counter.remaining, 2);
    assert_eq!(st.receipts.len(), 0);
    assert_eq!(ev.claimer, p(7));
    assert_eq!(ev.counter, p(1));
    assert_eq!(ev.remaining, 2);
}

#[test]
fn cancel_by_wrong_principal_fails_unauthorized() {
    let mut st = fresh(2, 100);
    assert!(claim(&mut st, p(7), 150).is_ok());
    let r = cancel(&mut st, p(7), p(8));
    assert_eq!(r, Err(CustomError::Unauthorized));
    assert_eq!(st.counter.remaining, 1);
    assert_eq!(st.receipts.len(), 1);
}

#[test]
fn cancel_at_full_capacity_fails_cleanly() {
    // A receipt beside a full counter only exists under misuse; the cancel
    // must still fail cleanly with AtCapacity and change nothing.
    let mut st = CounterState {
        counter: Counter { admin: p(1), capacity: 2, start_time: 0, remaining: 2 },
        receipts: vec![ClaimReceipt { claimer: p(7), claimed_at: 5 }],
    };
    let r = cancel(&mut st, p(7), p(7));
    assert_eq!(r, Err(CustomError::AtCapacity));
    assert_eq!(st.counter.remaining, 2);
    assert_eq!(st.receipts.len(), 1);
}

#[test]
fn round_trip_restores_pre_claim_state() {
    let mut st = fresh(5, 100);
    assert!(claim(&mut st, p(3), 150).is_ok());
    let before_remaining = st.counter.remaining;
    let before_len = st.receipts.len();
    assert!(claim(&mut st, p(7), 160).is_ok());
    assert!(cancel(&mut st, p(7), p(7)).is_ok());
    assert_eq!(st.counter.remaining, before_remaining);
    assert_eq!(st.receipts.len(), before_len);
    assert!(!st.holds_receipt(p(7)));
    assert!(st.holds_receipt(p(3)));
}

#[test]
fn receipt_count_always_matches_slots_handed_out() {
    let mut st = fresh(3, 0);
    assert!(claim(&mut st, p(7), 1).is_ok());
    assert!(claim(&mut st, p(8), 2).is_ok());
    assert_eq!(
        st.receipts.len() as u64,
        st.counter.capacity - st.counter.remaining
    );
    assert!(cancel(&mut st, p(7), p(7)).is_ok());
    assert_eq!(
        st.receipts.len() as u64,
        st.counter.capacity - st.counter.remaining
    );
}

#[test]
fn full_scenario_two_slots() {
    let a = p(10);
    let b = p(11);
    let c = p(12);
    let start: i64 = 1000;
    let mut st = fresh(2, start);

    assert_eq!(claim(&mut st, a, 999), Err(CustomError::NotStarted));

    let ev = claim(&mut st, a, 1000).unwrap();
    assert_eq!(ev.remaining, 1);
    let ev = claim(&mut st, b, 1001).unwrap();
    assert_eq!(ev.remaining, 0);

    assert_eq!(claim(&mut st, c, 1002), Err(CustomError::SoldOut));

    let ev = cancel(&mut st, a, a).unwrap();
    assert_eq!(ev.remaining, 1);

    let ev = claim(&mut st, c, 1003).unwrap();
    assert_eq!(ev.remaining, 0);

    assert_eq!(cancel(&mut st, b, c), Err(CustomError::Unauthorized));
    assert_eq!(st.counter.remaining, 0);
    assert!(st.holds_receipt(b));
    assert!(st.holds_receipt(c));
    assert!(!st.holds_receipt(a));
}

#[test]
fn find_receipt_reports_position_of_claimer() {
    let mut st = fresh(3, 0);
    assert!(claim(&mut st, p(7), 1).is_ok());
    assert!(claim(&mut st, p(8), 2).is_ok());
    assert_eq!(limited_claim::state::find_receipt(&st.receipts, p(8)), Some(1));
    assert_eq!(limited_claim::state::find_receipt(&st.receipts, p(9)), None);
}

#[test]
fn decrement_moves_remaining_by_exactly_one() {
    let mut counter = Counter { admin: p(1), capacity: 4, start_time: 10, remaining: 4 };
    assert_eq!(counter.decrement(10), Ok(()));
    assert_eq!(counter.remaining, 3);
    assert_eq!(counter.decrement(9), Err(CustomError::NotStarted));
    assert_eq!(counter.remaining, 3);
}

#[test]
fn decrement_exhausted_counter_fails_sold_out() {
    let mut counter = Counter { admin: p(1), capacity: 4, start_time: 10, remaining: 0 };
    assert_eq!(counter.decrement(50), Err(CustomError::SoldOut));
    assert_eq!(counter.remaining, 0);
}

#[test]
fn increment_moves_remaining_by_exactly_one() {
    let mut counter = Counter { admin: p(1), capacity: 4, start_time: 10, remaining: 3 };
    assert_eq!(counter.increment(), Ok(()));
    assert_eq!(counter.remaining, 4);
    assert_eq!(counter.increment(), Err(CustomError::AtCapacity));
    assert_eq!(counter.remaining, 4);
}

#[test]
fn create_receipt_rejects_occupied_location() {
    let mut receipts = Vec::new();
    assert_eq!(limited_claim::stores::create_receipt(&mut receipts, p(7), 3), Ok(()));
    assert_eq!(
        limited_claim::stores::create_receipt(&mut receipts, p(7), 4),
        Err(CustomError::DuplicateClaim)
    );
    assert_eq!(receipts, vec![ClaimReceipt { claimer: p(7), claimed_at: 3 }]);
}

#[test]
fn destroy_receipt_checks_ownership_then_removes() {
    let mut receipts = vec![ClaimReceipt { claimer: p(7), claimed_at: 3 }];
    assert_eq!(
        limited_claim::stores::destroy_receipt(&mut receipts, p(7), p(8)),
        Err(CustomError::Unauthorized)
    );
    assert_eq!(receipts.len(), 1);
    assert_eq!(limited_claim::stores::destroy_receipt(&mut receipts, p(7), p(7)), Ok(()));
    assert!(receipts.is_empty());
}

#[test]
fn error_messages_are_stable() {
    assert_eq!(CustomError::AlreadyExists.message(), "Already exists");
    assert_eq!(CustomError::SoldOut.message(), "Sold out");
    assert_eq!(CustomError::NotStarted.message(), "Claiming has not started yet");
    assert_eq!(CustomError::DuplicateClaim.message(), "Duplicate claim");
    assert_eq!(CustomError::Unauthorized.message(), "Unauthorized");
    assert_eq!(CustomError::AtCapacity.message(), "Counter at capacity");
    assert_eq!(CustomError::Overflow.message(), "Counter overflow");
}
