//! Accounts: opaque addresses and the identities that act on them.

use vstd::prelude::*;

verus! {

/// An on-ledger account address: an opaque byte identifier derived from a
/// public key. Its exact length is fixed by the identity scheme, an outside
/// collaborator; this core only carries it and compares it by its bytes.
#[derive(Debug)]
pub struct Address {
    bytes: Vec<u8>,
}

impl View for Address {
    type V = Seq<u8>;

    closed spec fn view(&self) -> Seq<u8> {
        self.bytes@
    }
}

impl Address {
    /// An address given by its raw bytes.
    pub fn from_bytes(bytes: Vec<u8>) -> (r: Self)
        ensures
            r@ == bytes@,
    {
        Address { bytes }
    }

    /// The raw bytes of the address.
    pub fn as_bytes(&self) -> (r: &Vec<u8>)
        ensures
            r@ == self@,
    {
        &self.bytes
    }
}

impl Clone for Address {
    /// The clone denotes the same address.
    fn clone(&self) -> (r: Self)
        ensures
            r@ == self@,
    {
        let bytes = self.bytes.clone();
        proof {
            assert(bytes@ =~= self.bytes@);
        }
        Address { bytes }
    }
}

/// A resolved identity: an account address together with the authority to
/// sign transfers from it. Key material and signing itself belong to an
/// outside collaborator, so only the address is carried here.
#[derive(Debug)]
pub struct Identity {
    address: Address,
}

impl View for Identity {
    type V = Seq<u8>;

    /// An identity denotes its account address.
    closed spec fn view(&self) -> Seq<u8> {
        self.address@
    }
}

impl Identity {
    /// The identity acting on the given address.
    pub fn new(address: Address) -> (r: Self)
        ensures
            r@ == address@,
    {
        Identity { address }
    }

    /// The address this identity acts on.
    pub fn address(&self) -> (r: &Address)
        ensures
            r@ == self@,
    {
        &self.address
    }
}

impl Clone for Identity {
    /// The clone denotes the same identity.
    fn clone(&self) -> (r: Self)
        ensures
            r@ == self@,
    {
        Identity { address: self.address.clone() }
    }
}

} // verus!
