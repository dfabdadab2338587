//! `TokenAmount`: a non-negative arbitrary-precision integer quantity.
//!
//! An amount is held as its little-endian byte representation; its
//! mathematical value is `le_val` of those bytes. Arithmetic and comparison
//! are delegated to `num_bigint::BigUint` through trusted wrappers whose
//! contracts are stated over `le_val`.

use vstd::prelude::*;
use crate::errors::LedgerError;

verus! {

/// `256^n`: the weight of the byte at index `n` of a little-endian numeral.
pub open spec fn pow256(n: nat) -> nat
    decreases n,
{
    if n == 0 {
        1
    } else {
        256 * pow256((n - 1) as nat)
    }
}

/// The value of a byte sequence read as a little-endian base-256 numeral.
pub open spec fn le_val(s: Seq<u8>) -> nat
    decreases s.len(),
{
    if s.len() == 0 {
        0
    } else {
        s[0] as nat + 256 * le_val(s.drop_first())
    }
}

/// Appending a byte on the most-significant end adds `b * 256^len`.
pub proof fn lemma_le_val_push(s: Seq<u8>, b: u8)
    ensures
        le_val(s.push(b)) == le_val(s) + (b as nat) * pow256(s.len() as nat),
    decreases s.len(),
{
    if s.len() == 0 {
        assert(s.push(b)[0] == b);
        assert(s.push(b).drop_first() =~= Seq::<u8>::empty());
        assert(le_val(Seq::<u8>::empty()) == 0);
        assert(le_val(s.push(b)) == b as nat);
        assert(pow256(0nat) == 1);
    } else {
        assert(s.push(b).drop_first() =~= s.drop_first().push(b));
        lemma_le_val_push(s.drop_first(), b);
        assert(le_val(s.push(b)) == s[0] as nat + 256 * (le_val(s.drop_first()) + (b as nat)
            * pow256((s.len() - 1) as nat)));
        assert(pow256(s.len() as nat) == 256 * pow256((s.len() - 1) as nat));
        assert(256 * (le_val(s.drop_first()) + (b as nat) * pow256((s.len() - 1) as nat))
            == 256 * le_val(s.drop_first()) + (b as nat) * (256 * pow256((s.len() - 1) as nat)))
            by (nonlinear_arith);
    }
}

/// Relies on `num_bigint::BigUint`: `from_bytes_le` reads a little-endian
/// numeral, `+` adds the values, and `to_bytes_le` writes the sum back in
/// little-endian bytes.
#[verifier::external_body]
fn big_add(a: &Vec<u8>, b: &Vec<u8>) -> (r: Vec<u8>)
    ensures
        le_val(r@) == le_val(a@) + le_val(b@),
{
    let x = num_bigint::BigUint::from_bytes_le(a);
    let y = num_bigint::BigUint::from_bytes_le(b);
    (x + y).to_bytes_le()
}

/// Relies on `num_bigint::BigUint`: `-` subtracts the values, and panics when
/// the subtrahend is larger, so the caller must have established the ordering.
#[verifier::external_body]
fn big_sub(a: &Vec<u8>, b: &Vec<u8>) -> (r: Vec<u8>)
    requires
        le_val(b@) <= le_val(a@),
    ensures
        le_val(r@) == le_val(a@) - le_val(b@),
{
    let x = num_bigint::BigUint::from_bytes_le(a);
    let y = num_bigint::BigUint::from_bytes_le(b);
    (x - y).to_bytes_le()
}

/// Relies on `num_bigint::BigUint`: `Ord::cmp` orders values numerically.
#[verifier::external_body]
fn big_cmp(a: &Vec<u8>, b: &Vec<u8>) -> (r: AmountOrder)
    ensures
        r == AmountOrder::Less <==> le_val(a@) < le_val(b@),
        r == AmountOrder::Equal <==> le_val(a@) == le_val(b@),
        r == AmountOrder::Greater <==> le_val(a@) > le_val(b@),
{
    let x = num_bigint::BigUint::from_bytes_le(a);
    let y = num_bigint::BigUint::from_bytes_le(b);
    match x.cmp(&y) {
        core::cmp::Ordering::Less => AmountOrder::Less,
        core::cmp::Ordering::Equal => AmountOrder::Equal,
        core::cmp::Ordering::Greater => AmountOrder::Greater,
    }
}

/// A non-negative arbitrary-precision token quantity.
///
/// Supports equality, total-order comparison, addition and a checked
/// subtraction that reports `ArithmeticUnderflow` instead of wrapping.
#[derive(Debug)]
pub struct TokenAmount {
    bytes: Vec<u8>,
}

/// Outcome of comparing two `TokenAmount`s.
#[derive(Debug, Clone, Copy, PartialEq, Eq, Structural)]
pub enum AmountOrder {
    Less,
    Equal,
    Greater,
}

impl TokenAmount {
    /// The mathematical value of this amount.
    pub closed spec fn value(&self) -> nat {
        le_val(self.bytes@)
    }

    /// The zero amount, for emptiness checks.
    pub fn zero() -> (r: Self)
        ensures
            r.value() == 0,
    {
        let bytes: Vec<u8> = Vec::new();
        TokenAmount { bytes }
    }

    /// An amount given by its little-endian byte representation, of any
    /// length: the arbitrary-precision constructor.
    pub fn from_le_bytes(bytes: Vec<u8>) -> (r: Self)
        ensures
            r.value() == le_val(bytes@),
    {
        TokenAmount { bytes }
    }

    /// An amount given as a small machine integer.
    pub fn from_u64(v: u64) -> (r: Self)
        ensures
            r.value() == v as nat,
    {
        let mut bytes: Vec<u8> = Vec::new();
        let mut rem: u64 = v;
        proof {
            assert(pow256(bytes@.len() as nat) == 1);
            assert((rem as nat) * 1 == rem as nat);
        }
        while rem > 0
            invariant
                v as nat == le_val(bytes@) + (rem as nat) * pow256(bytes@.len() as nat),
            decreases rem,
        {
            let b: u8 = (rem % 256) as u8;
            let ghost old_bytes = bytes@;
            let ghost old_rem = rem as nat;
            bytes.push(b);
            rem = rem / 256;
            proof {
                lemma_le_val_push(old_bytes, b);
                let p = pow256(old_bytes.len() as nat);
                assert(pow256(old_bytes.len() + 1) == 256 * p);
                assert(old_rem == 256 * (old_rem / 256) + old_rem % 256);
                assert(le_val(old_bytes) + (b as nat) * p + (rem as nat) * (256 * p) == le_val(
                    old_bytes,
                ) + old_rem * p) by (nonlinear_arith)
                    requires
                        old_rem == 256 * (rem as nat) + b as nat,
                ;
            }
        }
        proof {
            assert((0 as nat) * pow256(bytes@.len() as nat) == 0);
        }
        TokenAmount { bytes }
    }

    /// Total-order comparison of the two values.
    pub fn cmp_order(&self, other: &Self) -> (r: AmountOrder)
        ensures
            r == AmountOrder::Less <==> self.value() < other.value(),
            r == AmountOrder::Equal <==> self.value() == other.value(),
            r == AmountOrder::Greater <==> self.value() > other.value(),
    {
        big_cmp(&self.bytes, &other.bytes)
    }

    /// Whether this amount is strictly below `other`.
    pub fn lt(&self, other: &Self) -> (r: bool)
        ensures
            r == (self.value() < other.value()),
    {
        matches!(self.cmp_order(other), AmountOrder::Less)
    }

    /// Whether this amount is zero, for emptiness checks such as "the faucet
    /// must be non-empty".
    pub fn is_zero(&self) -> (r: bool)
        ensures
            r == (self.value() == 0),
    {
        let zero = TokenAmount::zero();
        matches!(self.cmp_order(&zero), AmountOrder::Equal)
    }

    /// The sum of the two amounts.
    pub fn add(&self, other: &Self) -> (r: Self)
        ensures
            r.value() == self.value() + other.value(),
    {
        TokenAmount { bytes: big_add(&self.bytes, &other.bytes) }
    }

    /// The difference `self - other`, for callers that have already
    /// established the ordering by comparison.
    pub fn sub_ordered(&self, other: &Self) -> (r: Self)
        requires
            other.value() <= self.value(),
        ensures
            r.value() == self.value() - other.value(),
    {
        TokenAmount { bytes: big_sub(&self.bytes, &other.bytes) }
    }

    /// The difference `self - other`, or `ArithmeticUnderflow` when `other`
    /// is larger: subtraction never wraps to a large positive value.
    pub fn checked_sub(&self, other: &Self) -> (r: Result<Self, LedgerError>)
        ensures
            self.value() >= other.value() ==> (r matches Ok(d) && d.value() == self.value()
                - other.value()),
            self.value() < other.value() ==> r == Err::<Self, _>(
                LedgerError::ArithmeticUnderflow,
            ),
    {
        if self.lt(other) {
            Err(LedgerError::ArithmeticUnderflow)
        } else {
            Ok(self.sub_ordered(other))
        }
    }
}

impl Clone for TokenAmount {
    /// The clone denotes the same value.
    fn clone(&self) -> (r: Self)
        ensures
            r.value() == self.value(),
    {
        let bytes = self.bytes.clone();
        proof {
            assert(bytes@ =~= self.bytes@);
        }
        TokenAmount { bytes }
    }
}

impl PartialEq for TokenAmount {
    /// Equality of the denoted values, whatever the byte representations.
    fn eq(&self, other: &Self) -> (r: bool) {
        matches!(self.cmp_order(other), AmountOrder::Equal)
    }
}

impl Eq for TokenAmount {

}

impl vstd::std_specs::cmp::PartialEqSpecImpl for TokenAmount {
    open spec fn obeys_eq_spec() -> bool {
        true
    }

    open spec fn eq_spec(&self, other: &Self) -> bool {
        self.value() == other.value()
    }
}

} // verus!
