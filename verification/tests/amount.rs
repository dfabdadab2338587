use ledger_reconcile::amount::{AmountOrder, TokenAmount};
use ledger_reconcile::errors::LedgerError;

#[test]
fn zero_is_zero() {
    let z = TokenAmount::zero();
    assert!(z.is_zero());
    assert_eq!(TokenAmount::from_u64(0), z);
    assert!(!TokenAmount::from_u64(1).is_zero());
}

#[test]
fn equality_ignores_representation() {
    // The same value written with trailing zero bytes is still equal.
    let padded = TokenAmount::from_le_bytes(vec![5, 0, 0, 0]);
    assert_eq!(padded, TokenAmount::from_u64(5));
    let zero_padded = TokenAmount::from_le_bytes(vec![0, 0, 0]);
    assert_eq!(zero_padded, TokenAmount::zero());
    assert!(zero_padded.is_zero());
}

#[test]
fn addition_exact() {
    let two = TokenAmount::from_u64(2);
    let three = TokenAmount::from_u64(3);
    assert_eq!(two.add(&three), TokenAmount::from_u64(5));
    assert_eq!(TokenAmount::zero().add(&two), two);
}

#[test]
fn addition_carries_past_u64() {
    // u64::MAX + 1 = 2^64: a nine-byte little-endian value.
    let max = TokenAmount::from_u64(u64::MAX);
    let one = TokenAmount::from_u64(1);
    let expected = TokenAmount::from_le_bytes(vec![0, 0, 0, 0, 0, 0, 0, 0, 1]);
    assert_eq!(max.add(&one), expected);
}

#[test]
fn addition_arbitrary_precision() {
    // 2^64 + 2^64 = 2^65.
    let big = TokenAmount::from_le_bytes(vec![0, 0, 0, 0, 0, 0, 0, 0, 1]);
    let expected = TokenAmount::from_le_bytes(vec![0, 0, 0, 0, 0, 0, 0, 0, 2]);
    assert_eq!(big.add(&big), expected);
}

#[test]
fn checked_sub_exact() {
    let a = TokenAmount::from_u64(25);
    let b = TokenAmount::from_u64(10);
    assert_eq!(a.checked_sub(&b).unwrap(), TokenAmount::from_u64(15));
    assert_eq!(a.checked_sub(&a).unwrap(), TokenAmount::zero());
}

#[test]
fn checked_sub_underflow_guard() {
    // Subtracting a larger amount fails explicitly, it never wraps.
    let small = TokenAmount::from_u64(10);
    let large = TokenAmount::from_u64(25);
    assert_eq!(
        small.checked_sub(&large),
        Err(LedgerError::ArithmeticUnderflow)
    );
}

#[test]
fn sub_ordered_after_comparison() {
    let a = TokenAmount::from_u64(100);
    let b = TokenAmount::from_u64(58);
    assert!(b.lt(&a));
    assert_eq!(a.sub_ordered(&b), TokenAmount::from_u64(42));
}

#[test]
fn total_order() {
    let a = TokenAmount::from_u64(7);
    let b = TokenAmount::from_u64(9);
    assert_eq!(a.cmp_order(&b), AmountOrder::Less);
    assert_eq!(b.cmp_order(&a), AmountOrder::Greater);
    assert_eq!(a.cmp_order(&a), AmountOrder::Equal);
    assert!(a.lt(&b));
    assert!(!b.lt(&a));
    // Values beyond one byte order correctly: 256 > 255.
    let c = TokenAmount::from_u64(255);
    let d = TokenAmount::from_u64(256);
    assert_eq!(c.cmp_order(&d), AmountOrder::Less);
}

#[test]
fn clone_preserves_value() {
    let a = TokenAmount::from_u64(12345);
    assert_eq!(a.clone(), a);
}

#[test]
fn conservation_of_a_transfer() {
    // Moving 15 between accounts holding 30 and 12 keeps the total at 42.
    let from = TokenAmount::from_u64(30);
    let to = TokenAmount::from_u64(12);
    let moved = TokenAmount::from_u64(15);
    let total_before = from.add(&to);
    let from_after = from.sub_ordered(&moved);
    let to_after = to.add(&moved);
    assert_eq!(from_after, TokenAmount::from_u64(15));
    assert_eq!(to_after, TokenAmount::from_u64(27));
    assert_eq!(from_after.add(&to_after), total_before);
}
