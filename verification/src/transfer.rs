//! Transfer requests: the immutable value object submitted to the ledger.

use vstd::prelude::*;
use crate::amount::TokenAmount;
use crate::identity::Address;
use crate::symbol::SymbolId;

verus! {

/// A signed transfer, as submitted to the ledger service.
///
/// `from == None` means "sign as the acting identity of the client"; an
/// explicit `from` is given when a client signs on behalf of an address other
/// than its own, e.g. the faucet's client sending from the faucet.
#[derive(Debug)]
pub struct TransferRequest {
    /// The source account, when it differs from the acting identity.
    pub from: Option<Address>,
    /// The destination account.
    pub to: Address,
    /// The quantity moved: on success the full amount moves, or none does.
    pub amount: TokenAmount,
    /// The token being moved.
    pub symbol: SymbolId,
}

} // verus!
