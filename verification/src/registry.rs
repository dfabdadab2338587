//! Alias registries: string-keyed bindings of symbol names and identity
//! aliases, with explicit lookup that never synthesizes a default on a miss.
//!
//! Bindings are kept newest-first; a lookup takes the most recent binding of
//! a name, so re-registering shadows the older binding.

use vstd::prelude::*;
use crate::identity::Identity;
use crate::symbol::SymbolId;

verus! {

/// The most recent binding of `name`, or `None` if it was never bound.
pub open spec fn lookup<V>(s: Seq<(String, V)>, name: Seq<char>) -> Option<V>
    decreases s.len(),
{
    if s.len() == 0 {
        None
    } else if s[0].0@ == name {
        Some(s[0].1)
    } else {
        lookup(s.drop_first(), name)
    }
}

/// A binding whose name differs plays no part in the lookup.
proof fn lemma_lookup_skip<V>(s: Seq<(String, V)>, i: int, name: Seq<char>)
    requires
        0 <= i < s.len(),
        s[i].0@ != name,
    ensures
        lookup(s.subrange(i, s.len() as int), name) == lookup(
            s.subrange(i + 1, s.len() as int),
            name,
        ),
{
    let t = s.subrange(i, s.len() as int);
    assert(t[0] == s[i]);
    assert(t.drop_first() =~= s.subrange(i + 1, s.len() as int));
}

/// The mapping from human-readable symbol name to on-ledger symbol
/// identifier: populated once at setup, read-only thereafter, and never
/// silently overwritten.
#[derive(Debug)]
pub struct SymbolRegistry {
    entries: Vec<(String, SymbolId)>,
}

impl SymbolRegistry {
    /// The identifier bound to `name`, if any.
    pub closed spec fn spec_resolve(&self, name: Seq<char>) -> Option<SymbolId> {
        lookup(self.entries@, name)
    }

    /// Whether `name` is a registered symbol.
    pub open spec fn contains(&self, name: Seq<char>) -> bool {
        self.spec_resolve(name) is Some
    }

    /// An empty registry: no name resolves.
    pub fn new() -> (r: Self)
        ensures
            forall|n: Seq<char>| r.spec_resolve(n) is None,
    {
        let entries: Vec<(String, SymbolId)> = Vec::new();
        SymbolRegistry { entries }
    }

    /// Binds `name` to `id`. Returns `false`, and changes nothing, when
    /// `name` is already registered: registration never overwrites.
    pub fn register(&mut self, name: String, id: SymbolId) -> (r: bool)
        ensures
            r == (old(self).spec_resolve(name@) is None),
            r ==> forall|n: Seq<char>|
                #![auto]
                final(self).spec_resolve(n) == (if n == name@ {
                    Some(id)
                } else {
                    old(self).spec_resolve(n)
                }),
            !r ==> *final(self) == *old(self),
    {
        if self.resolve(&name).is_some() {
            return false;
        }
        let ghost old_entries = self.entries@;
        let ghost bound_name = name@;
        self.entries.insert(0, (name, id));
        proof {
            assert forall|n: Seq<char>|
                #![auto]
                self.spec_resolve(n) == (if n == bound_name {
                    Some(id)
                } else {
                    lookup(old_entries, n)
                }) by {
                assert(self.entries@.drop_first() =~= old_entries);
            }
        }
        true
    }

    /// Looks `name` up; `None` when it was never registered, for the caller
    /// to decide whether that is fatal.
    pub fn resolve(&self, name: &String) -> (r: Option<SymbolId>)
        ensures
            r == self.spec_resolve(name@),
    {
        let n = self.entries.len();
        let mut i: usize = 0;
        proof {
            assert(self.entries@.subrange(0, n as int) =~= self.entries@);
        }
        while i < n
            invariant
                n == self.entries@.len(),
                0 <= i <= n,
                lookup(self.entries@, name@) == lookup(
                    self.entries@.subrange(i as int, n as int),
                    name@,
                ),
            decreases n - i,
        {
            let entry = &self.entries[i];
            if entry.0 == *name {
                proof {
                    assert(self.entries@.subrange(i as int, n as int)[0] == self.entries@[i as int]);
                }
                return Some(entry.1);
            }
            proof {
                lemma_lookup_skip(self.entries@, i as int, name@);
            }
            i = i + 1;
        }
        proof {
            assert(self.entries@.subrange(n as int, n as int) =~= Seq::<(String, SymbolId)>::empty());
        }
        None
    }
}

/// The mapping from human-readable alias to resolved identity. Re-registering
/// an alias is allowed and replaces the prior binding.
#[derive(Debug)]
pub struct IdentityRegistry {
    entries: Vec<(String, Identity)>,
}

impl IdentityRegistry {
    /// The identity bound to `alias`, if any.
    pub closed spec fn spec_resolve(&self, alias: Seq<char>) -> Option<Identity> {
        lookup(self.entries@, alias)
    }

    /// An empty registry: no alias resolves.
    pub fn new() -> (r: Self)
        ensures
            forall|n: Seq<char>| r.spec_resolve(n) is None,
    {
        let entries: Vec<(String, Identity)> = Vec::new();
        IdentityRegistry { entries }
    }

    /// Binds `alias` to `identity`, replacing any prior binding of the same
    /// alias; other bindings are untouched.
    pub fn register(&mut self, alias: String, identity: Identity)
        ensures
            forall|n: Seq<char>|
                #![auto]
                final(self).spec_resolve(n) == (if n == alias@ {
                    Some(identity)
                } else {
                    old(self).spec_resolve(n)
                }),
    {
        let ghost old_entries = self.entries@;
        let ghost bound_alias = alias@;
        let ghost bound = identity;
        self.entries.insert(0, (alias, identity));
        proof {
            assert forall|n: Seq<char>|
                #![auto]
                self.spec_resolve(n) == (if n == bound_alias {
                    Some(bound)
                } else {
                    lookup(old_entries, n)
                }) by {
                assert(self.entries@.drop_first() =~= old_entries);
            }
        }
    }

    /// Looks `alias` up; `None` when it was never registered — a default
    /// identity is never synthesized on a miss.
    pub fn resolve(&self, alias: &String) -> (r: Option<&Identity>)
        ensures
            match r {
                Some(id) => self.spec_resolve(alias@) == Some(*id),
                None => self.spec_resolve(alias@) is None,
            },
    {
        let n = self.entries.len();
        let mut i: usize = 0;
        proof {
            assert(self.entries@.subrange(0, n as int) =~= self.entries@);
        }
        while i < n
            invariant
                n == self.entries@.len(),
                0 <= i <= n,
                lookup(self.entries@, alias@) == lookup(
                    self.entries@.subrange(i as int, n as int),
                    alias@,
                ),
            decreases n - i,
        {
            let entry = &self.entries[i];
            if entry.0 == *alias {
                proof {
                    assert(self.entries@.subrange(i as int, n as int)[0] == self.entries@[i as int]);
                }
                return Some(&entry.1);
            }
            proof {
                lemma_lookup_skip(self.entries@, i as int, alias@);
            }
            i = i + 1;
        }
        proof {
            assert(self.entries@.subrange(n as int, n as int) =~= Seq::<(String, Identity)>::empty());
        }
        None
    }
}

} // verus!
