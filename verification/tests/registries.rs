use storage_order::ident::{Address, Identifier, TokenId};
use storage_order::registry::Registry;

fn token(name: &str) -> TokenId {
    TokenId::new(name.as_bytes().to_vec())
}

fn names(r: &Registry<TokenId>) -> Vec<Vec<u8>> {
    r.members().iter().map(|t| t.as_bytes().clone()).collect()
}

#[test]
fn registry_keeps_arrival_order() {
    let mut r: Registry<TokenId> = Registry::new();
    assert!(r.is_empty());
    assert!(r.insert(token("A")));
    assert!(r.insert(token("B")));
    assert!(r.insert(token("C")));
    assert_eq!(r.len(), 3);
    assert_eq!(names(&r), vec![b"A".to_vec(), b"B".to_vec(), b"C".to_vec()]);
    assert_eq!(r.get(1).unwrap().as_bytes(), &b"B".to_vec());
    assert!(r.get(3).is_none());
}

#[test]
fn registry_holds_each_key_once() {
    let mut r: Registry<TokenId> = Registry::new();
    assert!(r.insert(token("A")));
    assert!(!r.insert(token("A")));
    assert_eq!(r.len(), 1);
    assert!(r.contains(&token("A")));
    assert!(!r.contains(&token("B")));
}

#[test]
fn registry_remove_keeps_the_order_of_the_rest() {
    let mut r: Registry<TokenId> = Registry::new();
    r.insert(token("A"));
    r.insert(token("B"));
    r.insert(token("C"));
    assert!(r.remove(&token("B")));
    assert!(!r.remove(&token("B")));
    assert_eq!(names(&r), vec![b"A".to_vec(), b"C".to_vec()]);
    assert!(r.insert(token("B")));
    assert_eq!(names(&r), vec![b"A".to_vec(), b"C".to_vec(), b"B".to_vec()]);
    assert_eq!(r.position(&token("C")), Some(1));
    assert_eq!(r.position(&token("Z")), None);
}

#[test]
fn registry_from_members_drops_repeats() {
    let r = Registry::from_members(&vec![token("A"), token("B"), token("A"), token("C"), token("B")]);
    assert_eq!(names(&r), vec![b"A".to_vec(), b"B".to_vec(), b"C".to_vec()]);
}

#[test]
fn token_identity() {
    assert!(TokenId::egld().is_egld());
    assert!(!token("WEGLD-abcdef").is_egld());
    assert!(token("X").same(&token("X")));
    assert!(!token("X").same(&token("Y")));
    assert!(!token("X").same(&token("XY")));
    assert!(token("X").duplicate().same(&token("X")));
    assert!(TokenId::new(Vec::new()).same(&TokenId::egld()));
}

#[test]
fn address_identity() {
    let mut bytes = [0u8; 32];
    assert!(Address::new(bytes).is_zero());
    assert!(Address::zero().is_zero());
    bytes[31] = 1;
    let a = Address::new(bytes);
    assert!(!a.is_zero());
    assert!(a.same(&Address::new(bytes)));
    assert!(!a.same(&Address::zero()));
    assert_eq!(a.to_bytes(), bytes);
    assert!(a.duplicate().same(&a));
}
