use reflect::api::Api;
use reflect::errors::ContractError;
use reflect::types::{CanonicalAddr, HumanAddr};

fn human(name: &str) -> HumanAddr {
    HumanAddr(name.to_string())
}

fn canonical(bytes: &[u8]) -> CanonicalAddr {
    CanonicalAddr(bytes.to_vec())
}

#[test]
fn empty_api_converts_nothing() {
    let api = Api::new();
    assert_eq!(Err(ContractError::AddressConversion), api.canonical_address(&human("alice")));
    assert_eq!(Err(ContractError::AddressConversion), api.canonical_address(&human("")));
    assert_eq!(Err(ContractError::AddressConversion), api.human_address(&canonical(&[1, 2])));
    assert_eq!(Err(ContractError::AddressConversion), api.human_address(&canonical(&[])));
}

#[test]
fn registered_pair_converts_both_ways() {
    let mut api = Api::new();
    api.register(human("alice"), canonical(&[1, 2, 3]));
    api.register(human("bob"), canonical(&[4, 5]));

    assert_eq!(Ok(canonical(&[1, 2, 3])), api.canonical_address(&human("alice")));
    assert_eq!(Ok(canonical(&[4, 5])), api.canonical_address(&human("bob")));
    assert_eq!(Ok(human("alice")), api.human_address(&canonical(&[1, 2, 3])));
    assert_eq!(Ok(human("bob")), api.human_address(&canonical(&[4, 5])));

    assert_eq!(Err(ContractError::AddressConversion), api.canonical_address(&human("carol")));
    assert_eq!(Err(ContractError::AddressConversion), api.canonical_address(&human("ali")));
    assert_eq!(Err(ContractError::AddressConversion), api.human_address(&canonical(&[1, 2])));
    assert_eq!(Err(ContractError::AddressConversion), api.human_address(&canonical(&[5, 4])));
}

#[test]
fn first_registered_pair_wins() {
    let mut api = Api::new();
    api.register(human("alice"), canonical(&[1]));
    api.register(human("alice"), canonical(&[2]));
    api.register(human("ALICE"), canonical(&[1]));

    assert_eq!(Ok(canonical(&[1])), api.canonical_address(&human("alice")));
    assert_eq!(Ok(human("alice")), api.human_address(&canonical(&[1])));
    // the second pair is reached by its canonical form alone
    assert_eq!(Ok(human("alice")), api.human_address(&canonical(&[2])));
    assert_eq!(Ok(canonical(&[1])), api.canonical_address(&human("ALICE")));
}

#[test]
fn addresses_compare_by_content() {
    assert_eq!(canonical(&[1, 2, 3]), canonical(&[1, 2, 3]));
    assert_ne!(canonical(&[1, 2, 3]), canonical(&[1, 2]));
    assert_ne!(canonical(&[1, 2, 3]), canonical(&[1, 2, 4]));
    assert_eq!(canonical(&[]), canonical(&[]));
    assert_eq!(human("alice"), human("alice"));
    assert_ne!(human("alice"), human("Alice"));
    assert_eq!(canonical(&[9, 9]), canonical(&[9, 9]).clone());
    assert_eq!(human("bob"), human("bob").clone());
}
