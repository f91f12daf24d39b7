use reflect::errors::ContractError;
use reflect::state::{State, Storage};
use reflect::types::CanonicalAddr;

fn record(owner: &[u8]) -> State {
    State { owner: CanonicalAddr(owner.to_vec()) }
}

#[test]
fn load_from_empty_store_is_not_found() {
    let storage = Storage::new();
    assert_eq!(Err(ContractError::NotFound), storage.load());
    assert_eq!(None, storage.saved());
}

#[test]
fn load_from_undecodable_store_is_deserialize() {
    let storage = Storage::unreadable();
    assert_eq!(Err(ContractError::Deserialize), storage.load());
    assert_eq!(None, storage.saved());
}

#[test]
fn load_returns_the_record_held() {
    let storage = Storage::holding(record(b"alice"));
    assert_eq!(Ok(record(b"alice")), storage.load());
    // what the host put there is not a write of this call
    assert_eq!(None, storage.saved());
}

#[test]
fn save_then_load_returns_what_was_saved() {
    let mut storage = Storage::new();
    storage.save(record(b"alice"));
    assert_eq!(Ok(record(b"alice")), storage.load());
    assert_eq!(Some(record(b"alice")), storage.saved());

    storage.save(record(b""));
    assert_eq!(Ok(record(b"")), storage.load());
    assert_eq!(Some(record(b"")), storage.saved());
}

#[test]
fn save_replaces_an_undecodable_record() {
    let mut storage = Storage::unreadable();
    storage.save(record(b"alice"));
    assert_eq!(Ok(record(b"alice")), storage.load());
}

#[test]
fn update_saves_what_the_transform_returns() {
    let mut storage = Storage::holding(record(b"alice"));
    let updated = storage.update(|mut state: State| {
        state.owner.0.push(b'!');
        Ok(state)
    });
    assert_eq!(Ok(record(b"alice!")), updated);
    assert_eq!(Ok(record(b"alice!")), storage.load());
    assert_eq!(Some(record(b"alice!")), storage.saved());
}

#[test]
fn update_writes_nothing_where_the_transform_fails() {
    let mut storage = Storage::holding(record(b"alice"));
    let updated = storage.update(|_state: State| Err(ContractError::Unauthorized));
    assert_eq!(Err(ContractError::Unauthorized), updated);
    assert_eq!(Ok(record(b"alice")), storage.load());
    assert_eq!(None, storage.saved());
}

#[test]
fn update_hands_the_transform_the_record_held() {
    let mut storage = Storage::holding(record(b"alice"));
    let updated = storage.update(|state: State| {
        if state == record(b"alice") {
            Ok(record(b"seen"))
        } else {
            Err(ContractError::Unauthorized)
        }
    });
    assert_eq!(Ok(record(b"seen")), updated);
}

#[test]
fn update_without_a_record_fails_before_the_transform() {
    let mut storage = Storage::new();
    let updated = storage.update(|_state: State| panic!("nothing to transform"));
    assert_eq!(Err(ContractError::NotFound), updated);
    assert_eq!(Err(ContractError::NotFound), storage.load());
    assert_eq!(None, storage.saved());

    let mut storage = Storage::unreadable();
    let updated = storage.update(|_state: State| panic!("nothing to transform"));
    assert_eq!(Err(ContractError::Deserialize), updated);
    assert_eq!(Err(ContractError::Deserialize), storage.load());
    assert_eq!(None, storage.saved());
}
