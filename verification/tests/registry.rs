use ledger_reconcile::identity::{Address, Identity};
use ledger_reconcile::registry::{IdentityRegistry, SymbolRegistry};
use ledger_reconcile::symbol::SymbolId;

#[test]
fn symbol_register_and_resolve() {
    let mut reg = SymbolRegistry::new();
    assert!(reg.register(String::from("FBT"), SymbolId::new(3)));
    assert_eq!(reg.resolve(&String::from("FBT")), Some(SymbolId::new(3)));
}

#[test]
fn symbol_unknown_name_resolves_to_none() {
    let mut reg = SymbolRegistry::new();
    reg.register(String::from("FBT"), SymbolId::new(3));
    assert_eq!(reg.resolve(&String::from("MFX")), None);
    assert_eq!(SymbolRegistry::new().resolve(&String::from("FBT")), None);
}

#[test]
fn symbol_registration_never_overwrites() {
    let mut reg = SymbolRegistry::new();
    assert!(reg.register(String::from("FBT"), SymbolId::new(3)));
    assert!(!reg.register(String::from("FBT"), SymbolId::new(7)));
    assert_eq!(reg.resolve(&String::from("FBT")), Some(SymbolId::new(3)));
}

#[test]
fn identity_register_and_resolve() {
    let mut reg = IdentityRegistry::new();
    reg.register(
        String::from("alice"),
        Identity::new(Address::from_bytes(vec![1, 2, 3])),
    );
    let found = reg.resolve(&String::from("alice")).unwrap();
    assert_eq!(found.address().as_bytes(), &vec![1, 2, 3]);
}

#[test]
fn identity_reregistration_replaces() {
    let mut reg = IdentityRegistry::new();
    reg.register(
        String::from("alice"),
        Identity::new(Address::from_bytes(vec![1, 2, 3])),
    );
    reg.register(
        String::from("alice"),
        Identity::new(Address::from_bytes(vec![9, 9])),
    );
    let found = reg.resolve(&String::from("alice")).unwrap();
    assert_eq!(found.address().as_bytes(), &vec![9, 9]);
}

#[test]
fn identity_unknown_alias_resolves_to_none() {
    let mut reg = IdentityRegistry::new();
    reg.register(
        String::from("alice"),
        Identity::new(Address::from_bytes(vec![1, 2, 3])),
    );
    assert!(reg.resolve(&String::from("bob")).is_none());
}
