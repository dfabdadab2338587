//! A mathematical model of the ledger service's balances, and the laws the
//! reconciliation engine guarantees against it.
//!
//! The ledger service itself is an outside collaborator; this model states
//! what its documented interface promises of a successful `send` — the full
//! amount moves atomically from source to destination — so that the engine's
//! guarantees can be proved from it.

use vstd::prelude::*;
use crate::reconcile::{spec_plan, SpecPlan};
use crate::symbol::SymbolId;

verus! {

/// The ledger's balances: one non-negative value per account and symbol.
/// An account/symbol pair with no recorded balance holds zero.
pub type LedgerState = Map<(Seq<u8>, SymbolId), nat>;

/// The balance of `addr` for `sym`: zero when none is recorded.
pub open spec fn model_balance(ledger: LedgerState, addr: Seq<u8>, sym: SymbolId) -> nat {
    if ledger.contains_key((addr, sym)) {
        ledger[(addr, sym)]
    } else {
        0
    }
}

/// The ledger after a successful `send`: the full amount leaves `from` and
/// arrives at `to`, atomically. Meaningful when the send is funded, i.e.
/// `amount <= model_balance(ledger, from, sym)`; otherwise the service
/// rejects the send with `InsufficientFunds` and the state is unchanged.
pub open spec fn apply_send(
    ledger: LedgerState,
    from: Seq<u8>,
    to: Seq<u8>,
    sym: SymbolId,
    amount: nat,
) -> LedgerState {
    let debited = ledger.insert((from, sym), (model_balance(ledger, from, sym) - amount) as nat);
    debited.insert((to, sym), model_balance(debited, to, sym) + amount)
}

/// The ledger after one reconciliation of `subject` towards `target`: the
/// one corrective transfer applied, or the state unchanged when none is
/// issued (balance already on target, or the fail-fast empty reserve).
pub open spec fn spec_reconcile(
    ledger: LedgerState,
    subject: Seq<u8>,
    reserve: Seq<u8>,
    sym: SymbolId,
    target: nat,
) -> LedgerState {
    match spec_plan(
        model_balance(ledger, subject, sym),
        model_balance(ledger, reserve, sym),
        target,
    ) {
        SpecPlan::EmptyReserve => ledger,
        SpecPlan::Keep => ledger,
        SpecPlan::FromReserve { amount } => apply_send(ledger, reserve, subject, sym, amount),
        SpecPlan::ToReserve { amount } => apply_send(ledger, subject, reserve, sym, amount),
    }
}

/// Conservation: a successful transfer neither creates nor destroys tokens —
/// the sum of the source's and destination's balances for the symbol is
/// unchanged, and every other account/symbol balance is untouched.
pub proof fn lemma_send_conserves(
    ledger: LedgerState,
    from: Seq<u8>,
    to: Seq<u8>,
    sym: SymbolId,
    amount: nat,
)
    requires
        amount <= model_balance(ledger, from, sym),
    ensures
        from != to ==> model_balance(apply_send(ledger, from, to, sym, amount), from, sym)
            + model_balance(apply_send(ledger, from, to, sym, amount), to, sym) == model_balance(
            ledger,
            from,
            sym,
        ) + model_balance(ledger, to, sym),
        from == to ==> model_balance(apply_send(ledger, from, to, sym, amount), from, sym)
            == model_balance(ledger, from, sym),
        forall|a: Seq<u8>, s: SymbolId|
            (a != from || s != sym) && (a != to || s != sym) ==> #[trigger] model_balance(
                apply_send(ledger, from, to, sym, amount),
                a,
                s,
            ) == model_balance(ledger, a, s),
{
}

/// Reconciliation correctness: with a non-empty reserve able to fund an
/// upward correction, one reconciliation leaves the subject's balance for
/// the symbol exactly on target — with exactly one transfer when the balance
/// was off target, and none when it already matched.
pub proof fn lemma_reconcile_reaches_target(
    ledger: LedgerState,
    subject: Seq<u8>,
    reserve: Seq<u8>,
    sym: SymbolId,
    target: nat,
)
    requires
        subject != reserve,
        model_balance(ledger, reserve, sym) > 0,
        (spec_plan(
            model_balance(ledger, subject, sym),
            model_balance(ledger, reserve, sym),
            target,
        ) matches SpecPlan::FromReserve { amount } ==> amount <= model_balance(
            ledger,
            reserve,
            sym,
        )),
    ensures
        model_balance(spec_reconcile(ledger, subject, reserve, sym, target), subject, sym)
            == target,
        (spec_plan(
            model_balance(ledger, subject, sym),
            model_balance(ledger, reserve, sym),
            target,
        ) matches SpecPlan::ToReserve { amount } ==> amount <= model_balance(
            ledger,
            subject,
            sym,
        )),
{
}

/// No-op case: when the subject's balance already equals the target and the
/// reserve is non-empty, reconciliation issues zero transfers and the
/// balance still equals the target.
pub proof fn lemma_reconcile_noop(
    ledger: LedgerState,
    subject: Seq<u8>,
    reserve: Seq<u8>,
    sym: SymbolId,
    target: nat,
)
    requires
        model_balance(ledger, subject, sym) == target,
        model_balance(ledger, reserve, sym) > 0,
    ensures
        spec_plan(
            model_balance(ledger, subject, sym),
            model_balance(ledger, reserve, sym),
            target,
        ) is Keep,
        spec_reconcile(ledger, subject, reserve, sym, target) == ledger,
        model_balance(spec_reconcile(ledger, subject, reserve, sym, target), subject, sym)
            == target,
{
}

/// Reconciliation idempotence: after one reconciliation has brought the
/// subject's balance to `target`, a second reconciliation with the same
/// target issues zero transfers, changes nothing, and both runs leave the
/// subject's balance equal to `target`. Stated for runs between which the
/// reserve still holds something of the symbol: a first run that drains the
/// reserve to zero makes the second fail fast instead.
pub proof fn lemma_reconcile_idempotent(
    ledger: LedgerState,
    subject: Seq<u8>,
    reserve: Seq<u8>,
    sym: SymbolId,
    target: nat,
)
    requires
        subject != reserve,
        model_balance(ledger, reserve, sym) > 0,
        (spec_plan(
            model_balance(ledger, subject, sym),
            model_balance(ledger, reserve, sym),
            target,
        ) matches SpecPlan::FromReserve { amount } ==> amount <= model_balance(
            ledger,
            reserve,
            sym,
        )),
        model_balance(spec_reconcile(ledger, subject, reserve, sym, target), reserve, sym) > 0,
    ensures
        ({
            let once = spec_reconcile(ledger, subject, reserve, sym, target);
            &&& model_balance(once, subject, sym) == target
            &&& spec_plan(
                model_balance(once, subject, sym),
                model_balance(once, reserve, sym),
                target,
            ) is Keep
            &&& spec_reconcile(once, subject, reserve, sym, target) == once
            &&& model_balance(
                spec_reconcile(once, subject, reserve, sym, target),
                subject,
                sym,
            ) == target
        }),
{
    lemma_reconcile_reaches_target(ledger, subject, reserve, sym, target);
}

/// Reserve-empty guard: an empty reserve fails the reconciliation fast,
/// before any transfer is issued, whatever direction the correction would
/// have taken — even a downward one.
pub proof fn lemma_reserve_empty_guard(
    ledger: LedgerState,
    subject: Seq<u8>,
    reserve: Seq<u8>,
    sym: SymbolId,
    target: nat,
)
    requires
        model_balance(ledger, reserve, sym) == 0,
    ensures
        spec_plan(
            model_balance(ledger, subject, sym),
            model_balance(ledger, reserve, sym),
            target,
        ) is EmptyReserve,
        spec_reconcile(ledger, subject, reserve, sym, target) == ledger,
{
}

} // verus!
