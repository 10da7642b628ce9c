use nicks::pallet::Pallet;
use nicks::types::{Config, DispatchError, Error, Event};

const MAX_LENGTH: u32 = 16;
const RESERVATION_FEE: u64 = 100;

const A: u64 = 1;
const B: u64 = 2;
const C: u64 = 3;

fn registry() -> Pallet {
    Pallet::new(Config { max_length: MAX_LENGTH, reservation_fee: RESERVATION_FEE })
}

/// The registry after account `A` (free balance 1000) claimed "alice" and
/// then renamed to "alicia".
fn after_rename() -> Pallet {
    let mut p = registry();
    p.set_free_balance(A, 1000);
    assert_eq!(p.set_name(A, b"alice".to_vec()), Ok(()));
    assert_eq!(p.set_name(A, b"alicia".to_vec()), Ok(()));
    p
}

#[test]
fn first_naming_sets_entry_and_reserves_fee() {
    let mut p = registry();
    p.set_free_balance(A, 1000);
    assert_eq!(p.set_name(A, b"alice".to_vec()), Ok(()));
    assert_eq!(p.events().len(), 1);
    assert_eq!(p.events()[0], Event::NameSet { who: A });
    assert_eq!(p.lookup(A), Some((b"alice".to_vec(), 100)));
    assert_eq!(p.reserved_balance(A), 100);
    assert_eq!(p.free_balance(A), 900);
}

#[test]
fn rename_replaces_name_and_keeps_deposit() {
    let mut p = registry();
    p.set_free_balance(A, 1000);
    assert_eq!(p.set_name(A, b"alice".to_vec()), Ok(()));
    assert_eq!(p.set_name(A, b"alicia".to_vec()), Ok(()));
    assert_eq!(p.events().len(), 2);
    assert_eq!(p.events()[1], Event::NameChanged { who: A });
    assert_eq!(p.lookup(A), Some((b"alicia".to_vec(), 100)));
    assert_eq!(p.reserved_balance(A), 100);
    assert_eq!(p.free_balance(A), 900);
}

#[test]
fn naming_without_funds_fails_and_changes_nothing() {
    let mut p = registry();
    p.set_free_balance(B, 50);
    assert_eq!(p.set_name(B, b"bob".to_vec()), Err(DispatchError::InsufficientFunds));
    assert_eq!(p.lookup(B), None);
    assert_eq!(p.events().len(), 0);
    assert_eq!(p.free_balance(B), 50);
    assert_eq!(p.reserved_balance(B), 0);
}

#[test]
fn too_long_name_fails_and_changes_nothing() {
    let mut p = after_rename();
    let events_before = p.events().len();
    let long = vec![b'x'; 17];
    assert_eq!(p.set_name(A, long), Err(DispatchError::Module(Error::TooLong)));
    assert_eq!(p.events().len(), events_before);
    assert_eq!(p.lookup(A), Some((b"alicia".to_vec(), 100)));
    assert_eq!(p.reserved_balance(A), 100);
    assert_eq!(p.free_balance(A), 900);
}

#[test]
fn get_name_for_unnamed_account_fails_without_event() {
    let mut p = after_rename();
    let events_before = p.events().len();
    assert_eq!(p.get_name(C), Err(DispatchError::Module(Error::Unnamed)));
    assert_eq!(p.events().len(), events_before);
}

#[test]
fn get_name_publishes_current_name() {
    let mut p = after_rename();
    assert_eq!(p.get_name(A), Ok(()));
    let events = p.events();
    assert_eq!(events[events.len() - 1], Event::NameQueried { who: A, name: b"alicia".to_vec() });
    assert_eq!(p.lookup(A), Some((b"alicia".to_vec(), 100)));
    assert_eq!(p.reserved_balance(A), 100);
    assert_eq!(p.free_balance(A), 900);
}

#[test]
fn empty_name_is_accepted() {
    let mut p = registry();
    p.set_free_balance(A, 1000);
    assert_eq!(p.set_name(A, Vec::new()), Ok(()));
    assert_eq!(p.lookup(A), Some((Vec::new(), 100)));
}

#[test]
fn name_at_exact_bound_is_accepted() {
    let mut p = registry();
    p.set_free_balance(A, 1000);
    let name = vec![b'a'; 16];
    assert_eq!(p.set_name(A, name.clone()), Ok(()));
    assert_eq!(p.lookup(A), Some((name, 100)));
}

#[test]
fn name_one_over_bound_is_rejected() {
    let mut p = registry();
    p.set_free_balance(A, 1000);
    assert_eq!(p.set_name(A, vec![b'a'; 17]), Err(DispatchError::Module(Error::TooLong)));
    assert_eq!(p.lookup(A), None);
}

#[test]
fn name_bytes_are_stored_verbatim() {
    let mut p = registry();
    p.set_free_balance(A, 1000);
    let bytes = vec![0u8, 255, 128, 7, 0];
    assert_eq!(p.set_name(A, bytes.clone()), Ok(()));
    assert_eq!(p.lookup(A), Some((bytes, 100)));
}

#[test]
fn setting_the_same_name_again_still_emits_name_changed() {
    let mut p = registry();
    p.set_free_balance(A, 1000);
    assert_eq!(p.set_name(A, b"alice".to_vec()), Ok(()));
    assert_eq!(p.set_name(A, b"alice".to_vec()), Ok(()));
    assert_eq!(p.events().len(), 2);
    assert_eq!(p.events()[1], Event::NameChanged { who: A });
    assert_eq!(p.lookup(A), Some((b"alice".to_vec(), 100)));
}

#[test]
fn deposit_and_reservation_stay_put_across_many_renames() {
    let mut p = registry();
    p.set_free_balance(A, 1000);
    assert_eq!(p.set_name(A, b"a0".to_vec()), Ok(()));
    for i in 0..10u8 {
        assert_eq!(p.set_name(A, vec![b'n', i]), Ok(()));
        let (_, deposit) = p.lookup(A).unwrap();
        assert_eq!(deposit, 100);
        assert_eq!(p.reserved_balance(A), 100);
        assert_eq!(p.free_balance(A), 900);
    }
}

#[test]
fn round_trip_emits_name_set_then_name_queried() {
    let mut p = registry();
    p.set_free_balance(A, 1000);
    assert_eq!(p.set_name(A, b"carol".to_vec()), Ok(()));
    assert_eq!(p.get_name(A), Ok(()));
    assert_eq!(p.events().len(), 2);
    assert_eq!(p.events()[0], Event::NameSet { who: A });
    assert_eq!(p.events()[1], Event::NameQueried { who: A, name: b"carol".to_vec() });
}

#[test]
fn round_trip_after_rename_emits_name_changed_then_name_queried() {
    let mut p = after_rename();
    let start = p.events().len();
    assert_eq!(p.set_name(A, b"ada".to_vec()), Ok(()));
    assert_eq!(p.get_name(A), Ok(()));
    assert_eq!(p.events().len(), start + 2);
    assert_eq!(p.events()[start], Event::NameChanged { who: A });
    assert_eq!(p.events()[start + 1], Event::NameQueried { who: A, name: b"ada".to_vec() });
}

#[test]
fn fresh_registry_is_empty() {
    let p = registry();
    assert_eq!(p.lookup(A), None);
    assert_eq!(p.free_balance(A), 0);
    assert_eq!(p.reserved_balance(A), 0);
    assert_eq!(p.events().len(), 0);
    let cfg = p.config();
    assert_eq!(cfg.max_length, 16);
    assert_eq!(cfg.reservation_fee, 100);
}

#[test]
fn endowment_sets_only_the_free_balance() {
    let mut p = registry();
    p.set_free_balance(A, 777);
    assert_eq!(p.free_balance(A), 777);
    assert_eq!(p.reserved_balance(A), 0);
    assert_eq!(p.free_balance(B), 0);
    assert_eq!(p.events().len(), 0);
}

#[test]
fn names_of_different_accounts_are_independent() {
    let mut p = registry();
    p.set_free_balance(A, 1000);
    p.set_free_balance(B, 1000);
    assert_eq!(p.set_name(A, b"alice".to_vec()), Ok(()));
    assert_eq!(p.set_name(B, b"alice".to_vec()), Ok(()));
    assert_eq!(p.set_name(B, b"bob".to_vec()), Ok(()));
    assert_eq!(p.lookup(A), Some((b"alice".to_vec(), 100)));
    assert_eq!(p.lookup(B), Some((b"bob".to_vec(), 100)));
    assert_eq!(p.reserved_balance(A), 100);
    assert_eq!(p.reserved_balance(B), 100);
}
