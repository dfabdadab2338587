//! The reconciliation engine: compute the single corrective transfer that
//! drives an account's balance for one symbol to an exact target value, with
//! a reserve (faucet) account as counterparty, and check the outcome.
//!
//! The engine is split in three phases a driver sequences around its reads
//! and sends: plan from the balances read, absorb the send's result, verify
//! the mandatory post-read.

use vstd::prelude::*;
use crate::amount::TokenAmount;
use crate::errors::{LedgerError, TransferError, lift_transfer_error};
use crate::identity::Address;
use crate::symbol::SymbolId;
use crate::transfer::TransferRequest;

verus! {

/// What a reconciliation does, stated over mathematical values.
pub enum SpecPlan {
    /// The reserve holds nothing of the symbol: fail fast, issue nothing.
    EmptyReserve,
    /// The balance already equals the target: issue nothing.
    Keep,
    /// Move `amount` from the reserve to the subject.
    FromReserve { amount: nat },
    /// Move `amount` from the subject to the reserve.
    ToReserve { amount: nat },
}

/// The reconciliation decision: exactly one corrective transfer of the exact
/// difference, in the direction that reaches `target`, and none when the
/// balance is already there — and no transfer at all from an empty reserve.
pub open spec fn spec_plan(current: nat, reserve_balance: nat, target: nat) -> SpecPlan {
    if reserve_balance == 0 {
        SpecPlan::EmptyReserve
    } else if target > current {
        SpecPlan::FromReserve { amount: (target - current) as nat }
    } else if target < current {
        SpecPlan::ToReserve { amount: (current - target) as nat }
    } else {
        SpecPlan::Keep
    }
}

/// The corrective transfer a reconciliation issues, if any.
#[derive(Debug)]
pub enum Correction {
    /// The balance already equals the target.
    NoTransfer,
    /// Transfer this amount from the reserve to the subject, signed by the
    /// reserve's own client.
    FromReserve(TokenAmount),
    /// Transfer this amount from the subject to the reserve, signed by the
    /// subject's own client.
    ToReserve(TokenAmount),
}

impl Correction {
    /// Whether this correction denotes plan `p`.
    pub open spec fn models(self, p: SpecPlan) -> bool {
        match (self, p) {
            (Correction::NoTransfer, SpecPlan::Keep) => true,
            (Correction::FromReserve(a), SpecPlan::FromReserve { amount }) => a.value() == amount,
            (Correction::ToReserve(a), SpecPlan::ToReserve { amount }) => a.value() == amount,
            _ => false,
        }
    }
}

/// Decides the corrective transfer from the balances read: `current` and
/// `reserve_balance` fresh from the ledger, `target` the desired balance.
/// Fails fast with `EmptyReserve` when the reserve holds nothing, whatever
/// the direction; otherwise the result denotes `spec_plan` exactly.
pub fn plan_correction(
    current: &TokenAmount,
    reserve_balance: &TokenAmount,
    target: &TokenAmount,
) -> (r: Result<Correction, LedgerError>)
    ensures
        ({
            let p = spec_plan(current.value(), reserve_balance.value(), target.value());
            match r {
                Ok(c) => !(p is EmptyReserve) && c.models(p),
                Err(e) => p is EmptyReserve && e == LedgerError::EmptyReserve,
            }
        }),
{
    if reserve_balance.is_zero() {
        return Err(LedgerError::EmptyReserve);
    }
    match target.cmp_order(current) {
        crate::amount::AmountOrder::Greater => Ok(
            Correction::FromReserve(target.sub_ordered(current)),
        ),
        crate::amount::AmountOrder::Less => Ok(Correction::ToReserve(current.sub_ordered(target))),
        crate::amount::AmountOrder::Equal => Ok(Correction::NoTransfer),
    }
}

/// Turns a correction into the transfer request to submit, addressed between
/// the subject and the reserve; `None` when nothing is to be issued. The
/// `from` field names the account whose own client must sign the request.
pub fn correction_request(
    correction: Correction,
    subject: &Address,
    reserve: &Address,
    symbol: SymbolId,
) -> (r: Option<TransferRequest>)
    ensures
        ({
            match correction {
                Correction::NoTransfer => r is None,
                Correction::FromReserve(a) => r matches Some(t) && t.from matches Some(f) && f@
                    == reserve@ && t.to@ == subject@ && t.amount.value() == a.value() && t.symbol
                    == symbol,
                Correction::ToReserve(a) => r matches Some(t) && t.from matches Some(f) && f@
                    == subject@ && t.to@ == reserve@ && t.amount.value() == a.value() && t.symbol
                    == symbol,
            }
        }),
{
    match correction {
        Correction::NoTransfer => None,
        Correction::FromReserve(amount) => Some(
            TransferRequest {
                from: Some(reserve.clone()),
                to: subject.clone(),
                amount,
                symbol,
            },
        ),
        Correction::ToReserve(amount) => Some(
            TransferRequest { from: Some(subject.clone()), to: reserve.clone(), amount, symbol },
        ),
    }
}

/// Surfaces the outcome of the corrective send: a rejection is fatal to the
/// reconciliation and propagates as the like-named condition, with no retry.
pub fn absorb_send_result(sent: Result<(), TransferError>) -> (r: Result<(), LedgerError>)
    ensures
        sent is Ok <==> r is Ok,
        sent matches Err(e) ==> r == Err::<(), LedgerError>(lift_transfer_error(e)),
{
    match sent {
        Ok(()) => Ok(()),
        Err(TransferError::InsufficientFunds) => Err(LedgerError::InsufficientFunds),
        Err(TransferError::Unauthorized) => Err(LedgerError::Unauthorized),
        Err(TransferError::CommunicationError) => Err(LedgerError::CommunicationError),
    }
}

/// The mandatory post-reconciliation check: the re-read balance must equal
/// the target exactly; a mismatch is the distinct, fatal verification
/// failure (a service defect or an uncontrolled concurrent mutation).
pub fn verify_reconciliation(post: &TokenAmount, target: &TokenAmount) -> (r: Result<
    (),
    LedgerError,
>)
    ensures
        r is Ok <==> post.value() == target.value(),
        r is Err ==> r == Err::<(), LedgerError>(LedgerError::ReconciliationVerificationFailed),
{
    match post.cmp_order(target) {
        crate::amount::AmountOrder::Equal => Ok(()),
        _ => Err(LedgerError::ReconciliationVerificationFailed),
    }
}

} // verus!
