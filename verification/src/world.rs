//! The scenario session context: the registries, the reserve (faucet)
//! identity, and the alias-resolving entry points a scenario driver calls.
//!
//! The driver performs the actual ledger reads and sends; these functions do
//! everything in between — resolve aliases, decide the corrective transfer,
//! and judge the results — and never default a missing alias.

use vstd::prelude::*;
use crate::amount::TokenAmount;
use crate::errors::LedgerError;
use crate::identity::Identity;
use crate::reconcile::{correction_request, plan_correction, spec_plan, SpecPlan};
use crate::registry::{IdentityRegistry, SymbolRegistry};
use crate::symbol::SymbolId;
use crate::transfer::TransferRequest;

verus! {

/// Session state: set up once (identities, symbols, faucet), read-mostly
/// thereafter, nothing to tear down.
#[derive(Debug)]
pub struct World {
    identities: IdentityRegistry,
    symbols: SymbolRegistry,
    faucet: Identity,
}

impl World {
    /// The identity bound to `alias`, if registered.
    pub closed spec fn spec_identity(&self, alias: Seq<char>) -> Option<Identity> {
        self.identities.spec_resolve(alias)
    }

    /// The symbol identifier bound to `name`, if registered.
    pub closed spec fn spec_symbol(&self, name: Seq<char>) -> Option<SymbolId> {
        self.symbols.spec_resolve(name)
    }

    /// The address of the reserve (faucet) account.
    pub closed spec fn spec_faucet(&self) -> Seq<u8> {
        self.faucet@
    }

    /// A fresh session around the given faucet and symbol table, with no
    /// identities registered yet.
    pub fn new(faucet: Identity, symbols: SymbolRegistry) -> (r: Self)
        ensures
            r.spec_faucet() == faucet@,
            forall|n: Seq<char>| r.spec_symbol(n) == symbols.spec_resolve(n),
            forall|n: Seq<char>| r.spec_identity(n) is None,
    {
        World { identities: IdentityRegistry::new(), symbols, faucet }
    }

    /// Registers `identity` under `alias`, replacing any prior binding:
    /// an identity may be re-declared across scenario steps.
    pub fn insert_identity(&mut self, alias: String, identity: Identity)
        ensures
            forall|n: Seq<char>|
                #![auto]
                final(self).spec_identity(n) == (if n == alias@ {
                    Some(identity)
                } else {
                    old(self).spec_identity(n)
                }),
            forall|n: Seq<char>| final(self).spec_symbol(n) == old(self).spec_symbol(n),
            final(self).spec_faucet() == old(self).spec_faucet(),
    {
        self.identities.register(alias, identity);
    }

    /// The identity registered under `alias`; `None` when it was never
    /// registered — never a default identity.
    pub fn identity(&self, alias: &String) -> (r: Option<&Identity>)
        ensures
            match r {
                Some(id) => self.spec_identity(alias@) == Some(*id),
                None => self.spec_identity(alias@) is None,
            },
    {
        self.identities.resolve(alias)
    }

    /// The symbol identifier registered under `name`, or `None`.
    pub fn symbol(&self, name: &String) -> (r: Option<SymbolId>)
        ensures
            r == self.spec_symbol(name@),
    {
        self.symbols.resolve(name)
    }

    /// Whether `name` is a registered symbol: the check behind declaring a
    /// symbol in a scenario.
    pub fn has_symbol(&self, name: &String) -> (r: bool)
        ensures
            r == (self.spec_symbol(name@) is Some),
    {
        self.symbols.resolve(name).is_some()
    }

    /// The reserve (faucet) identity of this session.
    pub fn faucet(&self) -> (r: &Identity)
        ensures
            r@ == self.spec_faucet(),
    {
        &self.faucet
    }

    /// The compute part of a direct send step: resolve the sender, receiver
    /// and symbol aliases, and build the request the sender's client signs.
    /// Fails with `UnknownAlias`, and only with it, exactly when one of the
    /// three was never registered.
    pub fn prepare_send(
        &self,
        sender: &String,
        receiver: &String,
        amount: TokenAmount,
        symbol_name: &String,
    ) -> (r: Result<TransferRequest, LedgerError>)
        ensures
            ({
                let snd = self.spec_identity(sender@);
                let rcv = self.spec_identity(receiver@);
                let sym = self.spec_symbol(symbol_name@);
                match r {
                    Err(e) => e == LedgerError::UnknownAlias && (snd is None || rcv is None
                        || sym is None),
                    Ok(t) => snd is Some && rcv is Some && sym is Some && (t.from matches Some(f)
                        && f@ == snd.unwrap()@) && t.to@ == rcv.unwrap()@ && t.amount.value()
                        == amount.value() && t.symbol == sym.unwrap(),
                }
            }),
    {
        let sym = match self.symbols.resolve(symbol_name) {
            Some(s) => s,
            None => {
                return Err(LedgerError::UnknownAlias);
            },
        };
        let snd = match self.identities.resolve(sender) {
            Some(id) => id,
            None => {
                return Err(LedgerError::UnknownAlias);
            },
        };
        let rcv = match self.identities.resolve(receiver) {
            Some(id) => id,
            None => {
                return Err(LedgerError::UnknownAlias);
            },
        };
        Ok(
            TransferRequest {
                from: Some(snd.address().clone()),
                to: rcv.address().clone(),
                amount,
                symbol: sym,
            },
        )
    }

    /// The compute part of a reconciliation step, between the driver's two
    /// balance reads and its send: resolve the subject and symbol, guard the
    /// reserve, and decide the corrective transfer. Returns `Ok(None)` when
    /// the balance already equals the target, `Ok(Some(t))` with the one
    /// corrective transfer otherwise; fails with `UnknownAlias` exactly on an
    /// unregistered alias, and with `EmptyReserve` exactly when the reserve
    /// holds nothing of the symbol.
    pub fn plan_reconciliation(
        &self,
        subject: &String,
        symbol_name: &String,
        current: &TokenAmount,
        reserve_balance: &TokenAmount,
        target: &TokenAmount,
    ) -> (r: Result<Option<TransferRequest>, LedgerError>)
        ensures
            ({
                let sub = self.spec_identity(subject@);
                let sym = self.spec_symbol(symbol_name@);
                let p = spec_plan(current.value(), reserve_balance.value(), target.value());
                match r {
                    Err(e) => (e == LedgerError::UnknownAlias && (sub is None || sym is None)) || (
                    e == LedgerError::EmptyReserve && sub is Some && sym is Some
                        && p is EmptyReserve),
                    Ok(opt) => sub is Some && sym is Some && !(p is EmptyReserve) && match opt {
                        None => p is Keep,
                        Some(t) => t.symbol == sym.unwrap() && t.amount.value() != 0 && match p {
                            SpecPlan::FromReserve { amount } => t.amount.value() == amount && (
                            t.from matches Some(f) && f@ == self.spec_faucet()) && t.to@
                                == sub.unwrap()@,
                            SpecPlan::ToReserve { amount } => t.amount.value() == amount && (
                            t.from matches Some(f) && f@ == sub.unwrap()@) && t.to@
                                == self.spec_faucet(),
                            _ => false,
                        },
                    },
                }
            }),
    {
        let sym = match self.symbols.resolve(symbol_name) {
            Some(s) => s,
            None => {
                return Err(LedgerError::UnknownAlias);
            },
        };
        let sub = match self.identities.resolve(subject) {
            Some(id) => id,
            None => {
                return Err(LedgerError::UnknownAlias);
            },
        };
        let correction = match plan_correction(current, reserve_balance, target) {
            Ok(c) => c,
            Err(e) => {
                return Err(e);
            },
        };
        Ok(correction_request(correction, sub.address(), self.faucet.address(), sym))
    }
}

} // verus!
