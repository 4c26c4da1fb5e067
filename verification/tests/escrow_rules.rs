// The contract's rules, exercised on the library alone: accounts are plain
// string keys, the time is given with each call, and the transfers that the
// operations ask for are checked as values.

use payment_escrow::{EscrowError, EscrowStatus, PaymentEscrow, Transfer};

const ADMIN: &str = "GADMIN";
const TOKEN: &str = "CTOKEN";
const ALICE: &str = "GALICE";
const BOB: &str = "GBOB";
const CAROL: &str = "GCAROL";

fn s(v: &str) -> String {
    v.to_string()
}

fn initialised(window: u64) -> PaymentEscrow {
    let mut c = PaymentEscrow::new();
    c.initialize(s(ADMIN), s(TOKEN), window).unwrap();
    c
}

fn create(c: &mut PaymentEscrow, id: &str, depositor: &str, beneficiary: &str, amount: i128, release_after: u64, now: u64) -> Result<Transfer, EscrowError> {
    c.create_escrow(s(depositor), s(id), s(beneficiary), amount, s("terms"), release_after, now)
}

/// What the contract holds for its open escrows, summed over the given ids.
fn held(c: &PaymentEscrow, ids: &[&str]) -> i128 {
    ids.iter()
        .map(|id| c.get_escrow(&s(id)).unwrap())
        .filter(|e| e.status == EscrowStatus::Pending || e.status == EscrowStatus::Disputed)
        .map(|e| e.amount)
        .sum()
}

fn inflow(t: &Transfer) -> i128 {
    match t {
        Transfer::Deposit { amount, .. } => *amount,
        Transfer::Payout { amount, .. } => -*amount,
    }
}

#[test]
fn error_codes_are_the_contract_numbers() {
    let all = [
        (EscrowError::NotInitialized, 1),
        (EscrowError::Unauthorized, 2),
        (EscrowError::AlreadyInitialized, 3),
        (EscrowError::EscrowNotFound, 4),
        (EscrowError::EscrowAlreadyExists, 5),
        (EscrowError::EscrowNotPending, 6),
        (EscrowError::EscrowNotDisputed, 7),
        (EscrowError::DisputeWindowClosed, 8),
        (EscrowError::ClaimTooEarly, 9),
        (EscrowError::AutoClaimDisabled, 10),
        (EscrowError::InvalidAmount, 11),
    ];
    for (e, code) in all {
        assert_eq!(e.code(), code);
    }
}

#[test]
fn requests_before_initialisation_are_refused() {
    let mut c = PaymentEscrow::new();
    assert_eq!(c.admin(), Err(EscrowError::NotInitialized));
    assert_eq!(c.payment_token(), Err(EscrowError::NotInitialized));
    assert_eq!(c.dispute_window(), Err(EscrowError::NotInitialized));
    assert_eq!(create(&mut c, "e1", ALICE, BOB, 10, 0, 0), Err(EscrowError::NotInitialized));
    assert_eq!(c.set_dispute_window(&s(ADMIN), 5), Err(EscrowError::NotInitialized));
    assert_eq!(c.release(&s(ADMIN), &s("e1"), 0), Err(EscrowError::NotInitialized));
    assert_eq!(c.refund(&s(ADMIN), &s("e1"), 0), Err(EscrowError::NotInitialized));
    assert_eq!(c.resolve_dispute(&s(ADMIN), &s("e1"), true, 0), Err(EscrowError::NotInitialized));
    assert_eq!(c.claim(&s(BOB), &s("e1"), 0), Err(EscrowError::NotInitialized));
    assert_eq!(c.raise_dispute(&s(ALICE), &s("e1"), 0), Err(EscrowError::EscrowNotFound));
    assert!(c.get_depositor_escrows(&s(ALICE)).is_empty());
}

#[test]
fn initialising_twice_keeps_the_first_settings() {
    let mut c = initialised(100);
    assert_eq!(c.initialize(s(BOB), s("COTHER"), 7), Err(EscrowError::AlreadyInitialized));
    assert_eq!(c.admin(), Ok(s(ADMIN)));
    assert_eq!(c.payment_token(), Ok(s(TOKEN)));
    assert_eq!(c.dispute_window(), Ok(100));
}

#[test]
fn creation_records_the_escrow_and_asks_for_the_deposit() {
    let mut c = initialised(100);
    let t = c
        .create_escrow(s(ALICE), s("e1"), s(BOB), 250, s("rent"), 900, 42)
        .unwrap();
    assert_eq!(t, Transfer::Deposit { from: s(ALICE), amount: 250 });
    let e = c.get_escrow(&s("e1")).unwrap();
    assert_eq!(e.id, "e1");
    assert_eq!(e.depositor, ALICE);
    assert_eq!(e.beneficiary, BOB);
    assert_eq!(e.amount, 250);
    assert_eq!(e.description, "rent");
    assert_eq!(e.status, EscrowStatus::Pending);
    assert_eq!(e.created_at, 42);
    assert_eq!(e.dispute_window, 100);
    assert_eq!(e.release_after, 900);
    assert_eq!(e.dispute_raised_at, None);
    assert_eq!(e.resolved_at, None);
}

#[test]
fn non_positive_amounts_and_duplicates_are_refused() {
    let mut c = initialised(100);
    assert_eq!(create(&mut c, "e1", ALICE, BOB, -5, 0, 0), Err(EscrowError::InvalidAmount));
    assert_eq!(create(&mut c, "e1", ALICE, BOB, 0, 0, 0), Err(EscrowError::InvalidAmount));
    assert_eq!(c.get_escrow(&s("e1")).unwrap_err(), EscrowError::EscrowNotFound);
    create(&mut c, "e1", ALICE, BOB, 5, 0, 0).unwrap();
    assert_eq!(create(&mut c, "e1", CAROL, BOB, 9, 0, 3), Err(EscrowError::EscrowAlreadyExists));
    assert_eq!(c.get_escrow(&s("e1")).unwrap().amount, 5);
    assert_eq!(c.get_depositor_escrows(&s(CAROL)), Vec::<String>::new());
}

#[test]
fn release_and_refund_pay_the_right_party() {
    let mut c = initialised(100);
    create(&mut c, "e1", ALICE, BOB, 70, 0, 1).unwrap();
    create(&mut c, "e2", ALICE, BOB, 30, 0, 1).unwrap();
    assert_eq!(c.release(&s(ADMIN), &s("e1"), 5), Ok(Transfer::Payout { to: s(BOB), amount: 70 }));
    assert_eq!(c.refund(&s(ADMIN), &s("e2"), 6), Ok(Transfer::Payout { to: s(ALICE), amount: 30 }));
    let e1 = c.get_escrow(&s("e1")).unwrap();
    let e2 = c.get_escrow(&s("e2")).unwrap();
    assert_eq!((e1.status, e1.resolved_at), (EscrowStatus::Released, Some(5)));
    assert_eq!((e2.status, e2.resolved_at), (EscrowStatus::Refunded, Some(6)));
}

#[test]
fn only_the_admin_settles_and_a_refusal_changes_nothing() {
    let mut c = initialised(100);
    create(&mut c, "e1", ALICE, BOB, 70, 0, 1).unwrap();
    assert_eq!(c.release(&s(BOB), &s("e1"), 5), Err(EscrowError::Unauthorized));
    assert_eq!(c.refund(&s(ALICE), &s("e1"), 5), Err(EscrowError::Unauthorized));
    assert_eq!(c.set_dispute_window(&s(BOB), 1), Err(EscrowError::Unauthorized));
    assert_eq!(c.release(&s(ADMIN), &s("nope"), 5), Err(EscrowError::EscrowNotFound));
    let e = c.get_escrow(&s("e1")).unwrap();
    assert_eq!(e.status, EscrowStatus::Pending);
    assert_eq!(e.resolved_at, None);
    assert_eq!(c.dispute_window(), Ok(100));
}

#[test]
fn dispute_window_is_inclusive_of_its_last_second() {
    let mut c = initialised(50);
    create(&mut c, "e1", ALICE, BOB, 10, 0, 100).unwrap();
    create(&mut c, "e2", ALICE, BOB, 10, 0, 100).unwrap();
    assert_eq!(c.raise_dispute(&s(ALICE), &s("e1"), 150), Ok(()));
    assert_eq!(c.raise_dispute(&s(ALICE), &s("e2"), 151), Err(EscrowError::DisputeWindowClosed));
    let e1 = c.get_escrow(&s("e1")).unwrap();
    assert_eq!((e1.status, e1.dispute_raised_at), (EscrowStatus::Disputed, Some(150)));
}

#[test]
fn either_party_but_no_one_else_may_dispute() {
    let mut c = initialised(50);
    create(&mut c, "e1", ALICE, BOB, 10, 0, 0).unwrap();
    assert_eq!(c.raise_dispute(&s(CAROL), &s("e1"), 1), Err(EscrowError::Unauthorized));
    assert_eq!(c.raise_dispute(&s(ADMIN), &s("e1"), 1), Err(EscrowError::Unauthorized));
    assert_eq!(c.raise_dispute(&s(BOB), &s("e1"), 1), Ok(()));
    assert_eq!(c.raise_dispute(&s(ALICE), &s("e1"), 2), Err(EscrowError::EscrowNotPending));
}

#[test]
fn disputed_escrows_wait_for_the_admin() {
    let mut c = initialised(50);
    create(&mut c, "e1", ALICE, BOB, 10, 5, 0).unwrap();
    c.raise_dispute(&s(ALICE), &s("e1"), 1).unwrap();
    assert_eq!(c.release(&s(ADMIN), &s("e1"), 2), Err(EscrowError::EscrowNotPending));
    assert_eq!(c.refund(&s(ADMIN), &s("e1"), 2), Err(EscrowError::EscrowNotPending));
    assert_eq!(c.claim(&s(BOB), &s("e1"), 9), Err(EscrowError::EscrowNotPending));
    assert_eq!(c.resolve_dispute(&s(BOB), &s("e1"), true, 3), Err(EscrowError::Unauthorized));
    assert_eq!(c.resolve_dispute(&s(ADMIN), &s("nope"), true, 3), Err(EscrowError::EscrowNotFound));
    assert_eq!(
        c.resolve_dispute(&s(ADMIN), &s("e1"), false, 3),
        Ok(Transfer::Payout { to: s(ALICE), amount: 10 })
    );
    let e = c.get_escrow(&s("e1")).unwrap();
    assert_eq!(e.status, EscrowStatus::Refunded);
    assert_eq!(e.dispute_raised_at, Some(1));
    assert_eq!(e.resolved_at, Some(3));
    assert_eq!(c.resolve_dispute(&s(ADMIN), &s("e1"), true, 4), Err(EscrowError::EscrowNotDisputed));
}

#[test]
fn claim_opens_exactly_at_the_release_time() {
    let mut c = initialised(50);
    create(&mut c, "e1", ALICE, BOB, 10, 500, 0).unwrap();
    assert_eq!(c.claim(&s(BOB), &s("e1"), 499), Err(EscrowError::ClaimTooEarly));
    assert_eq!(c.claim(&s(ALICE), &s("e1"), 500), Err(EscrowError::Unauthorized));
    assert_eq!(c.claim(&s(BOB), &s("nope"), 500), Err(EscrowError::EscrowNotFound));
    assert_eq!(c.claim(&s(BOB), &s("e1"), 500), Ok(Transfer::Payout { to: s(BOB), amount: 10 }));
    assert_eq!(c.get_escrow(&s("e1")).unwrap().resolved_at, Some(500));
    assert_eq!(c.claim(&s(BOB), &s("e1"), 501), Err(EscrowError::EscrowNotPending));
}

#[test]
fn a_settled_escrow_is_final() {
    let mut c = initialised(50);
    create(&mut c, "e1", ALICE, BOB, 10, 1, 0).unwrap();
    c.refund(&s(ADMIN), &s("e1"), 2).unwrap();
    assert_eq!(c.release(&s(ADMIN), &s("e1"), 3), Err(EscrowError::EscrowNotPending));
    assert_eq!(c.refund(&s(ADMIN), &s("e1"), 3), Err(EscrowError::EscrowNotPending));
    assert_eq!(c.claim(&s(BOB), &s("e1"), 3), Err(EscrowError::EscrowNotPending));
    assert_eq!(c.raise_dispute(&s(ALICE), &s("e1"), 3), Err(EscrowError::EscrowNotPending));
    assert_eq!(c.resolve_dispute(&s(ADMIN), &s("e1"), true, 3), Err(EscrowError::EscrowNotDisputed));
    let e = c.get_escrow(&s("e1")).unwrap();
    assert_eq!((e.status, e.resolved_at), (EscrowStatus::Refunded, Some(2)));
}

#[test]
fn a_new_window_applies_to_new_escrows_only() {
    let mut c = initialised(50);
    create(&mut c, "old", ALICE, BOB, 10, 0, 0).unwrap();
    c.set_dispute_window(&s(ADMIN), 0).unwrap();
    create(&mut c, "new", ALICE, BOB, 10, 0, 0).unwrap();
    assert_eq!(c.get_escrow(&s("old")).unwrap().dispute_window, 50);
    assert_eq!(c.get_escrow(&s("new")).unwrap().dispute_window, 0);
    assert_eq!(c.raise_dispute(&s(ALICE), &s("old"), 10), Ok(()));
    assert_eq!(c.raise_dispute(&s(ALICE), &s("new"), 0), Err(EscrowError::DisputeWindowClosed));
}

#[test]
fn party_lists_follow_creation_order() {
    let mut c = initialised(50);
    create(&mut c, "a", ALICE, BOB, 1, 0, 0).unwrap();
    create(&mut c, "b", CAROL, BOB, 1, 0, 0).unwrap();
    create(&mut c, "c", ALICE, CAROL, 1, 0, 0).unwrap();
    c.release(&s(ADMIN), &s("a"), 1).unwrap();
    assert_eq!(c.get_depositor_escrows(&s(ALICE)), vec![s("a"), s("c")]);
    assert_eq!(c.get_depositor_escrows(&s(CAROL)), vec![s("b")]);
    assert_eq!(c.get_beneficiary_escrows(&s(BOB)), vec![s("a"), s("b")]);
    assert_eq!(c.get_beneficiary_escrows(&s(CAROL)), vec![s("c")]);
    assert!(c.get_beneficiary_escrows(&s(ALICE)).is_empty());
}

#[test]
fn holdings_move_exactly_with_the_transfers() {
    let ids = ["e1", "e2", "e3"];
    let mut c = initialised(50);
    let mut balance: i128 = 0;
    let steps: Vec<Transfer> = vec![
        create(&mut c, "e1", ALICE, BOB, 40, 10, 0).unwrap(),
        create(&mut c, "e2", BOB, ALICE, 25, 0, 0).unwrap(),
        create(&mut c, "e3", CAROL, BOB, 5, 0, 0).unwrap(),
    ];
    for t in &steps {
        balance += inflow(t);
    }
    assert_eq!(balance, held(&c, &ids));
    c.raise_dispute(&s(BOB), &s("e2"), 5).unwrap();
    assert_eq!(balance, held(&c, &ids));
    balance += inflow(&c.claim(&s(BOB), &s("e1"), 10).unwrap());
    assert_eq!(balance, held(&c, &ids));
    balance += inflow(&c.resolve_dispute(&s(ADMIN), &s("e2"), true, 11).unwrap());
    assert_eq!(balance, held(&c, &ids));
    balance += inflow(&c.refund(&s(ADMIN), &s("e3"), 12).unwrap());
    assert_eq!(balance, 0);
    assert_eq!(held(&c, &ids), 0);
}

#[test]
fn escrow_terms_survive_every_step() {
    let mut c = initialised(50);
    c.create_escrow(s(ALICE), s("e1"), s(BOB), 33, s("lease"), 7, 3).unwrap();
    c.raise_dispute(&s(BOB), &s("e1"), 4).unwrap();
    c.set_dispute_window(&s(ADMIN), 9).unwrap();
    c.resolve_dispute(&s(ADMIN), &s("e1"), true, 5).unwrap();
    let e = c.get_escrow(&s("e1")).unwrap();
    assert_eq!(
        (e.id.as_str(), e.depositor.as_str(), e.beneficiary.as_str(), e.amount, e.description.as_str()),
        ("e1", ALICE, BOB, 33, "lease")
    );
    assert_eq!((e.created_at, e.dispute_window, e.release_after), (3, 50, 7));
    assert_eq!((e.status, e.dispute_raised_at, e.resolved_at), (EscrowStatus::Released, Some(4), Some(5)));
}

#[test]
fn stored_state_round_trips() {
    let mut c = initialised(50);
    create(&mut c, "e1", ALICE, BOB, 12, 0, 0).unwrap();
    let (config, escrows) = c.into_parts();
    assert_eq!(config.as_ref().map(|c| c.admin.as_str()), Some(ADMIN));
    assert_eq!(escrows.len(), 1);
    let mut c = PaymentEscrow::from_parts(config, escrows);
    assert_eq!(c.dispute_window(), Ok(50));
    assert_eq!(c.release(&s(ADMIN), &s("e1"), 1), Ok(Transfer::Payout { to: s(BOB), amount: 12 }));
}
