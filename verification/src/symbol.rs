//! Token symbols: the opaque on-ledger identifier of a token.

use vstd::prelude::*;

verus! {

/// The stable on-ledger identifier of a token symbol. Opaque to this core:
/// it is only carried through transfer requests and compared for identity.
#[derive(Debug, Clone, Copy, PartialEq, Eq, Structural, Hash)]
pub struct SymbolId {
    /// The raw identifier, as assigned by the ledger service.
    pub raw: u64,
}

impl SymbolId {
    /// The identifier with the given raw value.
    pub fn new(raw: u64) -> (r: Self)
        ensures
            r.raw == raw,
    {
        SymbolId { raw }
    }
}

} // verus!
