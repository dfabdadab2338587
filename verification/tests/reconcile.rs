use ledger_reconcile::amount::TokenAmount;
use ledger_reconcile::errors::{LedgerError, TransferError};
use ledger_reconcile::identity::Address;
use ledger_reconcile::reconcile::{
    absorb_send_result, correction_request, plan_correction, verify_reconciliation, Correction,
};
use ledger_reconcile::symbol::SymbolId;

#[test]
fn increase_issues_one_transfer_of_the_difference() {
    // Subject at 10, target 25, reserve holds enough: one transfer of 15
    // from the reserve.
    let current = TokenAmount::from_u64(10);
    let reserve = TokenAmount::from_u64(100);
    let target = TokenAmount::from_u64(25);
    match plan_correction(&current, &reserve, &target) {
        Ok(Correction::FromReserve(a)) => assert_eq!(a, TokenAmount::from_u64(15)),
        other => panic!("expected a transfer from the reserve, got {:?}", other),
    }
}

#[test]
fn decrease_issues_one_transfer_of_the_difference() {
    // Subject at 25, target 10: one transfer of 15 back to the reserve.
    let current = TokenAmount::from_u64(25);
    let reserve = TokenAmount::from_u64(1);
    let target = TokenAmount::from_u64(10);
    match plan_correction(&current, &reserve, &target) {
        Ok(Correction::ToReserve(a)) => assert_eq!(a, TokenAmount::from_u64(15)),
        other => panic!("expected a transfer to the reserve, got {:?}", other),
    }
}

#[test]
fn on_target_issues_no_transfer() {
    let current = TokenAmount::from_u64(25);
    let reserve = TokenAmount::from_u64(100);
    match plan_correction(&current, &reserve, &current) {
        Ok(Correction::NoTransfer) => {}
        other => panic!("expected no transfer, got {:?}", other),
    }
}

#[test]
fn empty_reserve_fails_fast_in_both_directions() {
    let reserve = TokenAmount::zero();
    let low = TokenAmount::from_u64(10);
    let high = TokenAmount::from_u64(25);
    // Upward correction: impossible without reserve funds.
    assert!(matches!(
        plan_correction(&low, &reserve, &high),
        Err(LedgerError::EmptyReserve)
    ));
    // Downward correction: still refused, an empty reserve signals a
    // misconfigured fixture.
    assert!(matches!(
        plan_correction(&high, &reserve, &low),
        Err(LedgerError::EmptyReserve)
    ));
    // Even on target, the guard comes first.
    assert!(matches!(
        plan_correction(&low, &reserve, &low),
        Err(LedgerError::EmptyReserve)
    ));
}

#[test]
fn request_for_an_increase_is_signed_by_the_reserve() {
    let subject = Address::from_bytes(vec![1, 1, 1]);
    let reserve = Address::from_bytes(vec![2, 2, 2]);
    let c = Correction::FromReserve(TokenAmount::from_u64(15));
    let req = correction_request(c, &subject, &reserve, SymbolId::new(3)).unwrap();
    assert_eq!(req.from.unwrap().as_bytes(), &vec![2, 2, 2]);
    assert_eq!(req.to.as_bytes(), &vec![1, 1, 1]);
    assert_eq!(req.amount, TokenAmount::from_u64(15));
    assert_eq!(req.symbol, SymbolId::new(3));
}

#[test]
fn request_for_a_decrease_is_signed_by_the_subject() {
    let subject = Address::from_bytes(vec![1, 1, 1]);
    let reserve = Address::from_bytes(vec![2, 2, 2]);
    let c = Correction::ToReserve(TokenAmount::from_u64(7));
    let req = correction_request(c, &subject, &reserve, SymbolId::new(3)).unwrap();
    assert_eq!(req.from.unwrap().as_bytes(), &vec![1, 1, 1]);
    assert_eq!(req.to.as_bytes(), &vec![2, 2, 2]);
    assert_eq!(req.amount, TokenAmount::from_u64(7));
}

#[test]
fn no_transfer_builds_no_request() {
    let subject = Address::from_bytes(vec![1]);
    let reserve = Address::from_bytes(vec![2]);
    assert!(correction_request(Correction::NoTransfer, &subject, &reserve, SymbolId::new(0))
        .is_none());
}

#[test]
fn send_rejection_surfaces_unchanged() {
    // An `InsufficientFunds` rejection fails the operation with the same
    // condition; nothing is retried or remapped.
    assert_eq!(
        absorb_send_result(Err(TransferError::InsufficientFunds)),
        Err(LedgerError::InsufficientFunds)
    );
    assert_eq!(
        absorb_send_result(Err(TransferError::Unauthorized)),
        Err(LedgerError::Unauthorized)
    );
    assert_eq!(
        absorb_send_result(Err(TransferError::CommunicationError)),
        Err(LedgerError::CommunicationError)
    );
    assert_eq!(absorb_send_result(Ok(())), Ok(()));
}

#[test]
fn post_read_must_match_target() {
    let target = TokenAmount::from_u64(25);
    assert_eq!(
        verify_reconciliation(&TokenAmount::from_u64(25), &target),
        Ok(())
    );
    assert_eq!(
        verify_reconciliation(&TokenAmount::from_u64(24), &target),
        Err(LedgerError::ReconciliationVerificationFailed)
    );
}
