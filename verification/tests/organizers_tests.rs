use invilink::error::ErrorCode;
use invilink::organizers::{add_organizer, initialize_organizers_pool, remove_organizer};
use invilink::pubkey::{master_account, Pubkey};
use invilink::state::OrganizersPool;

fn org_key(n: u8) -> Pubkey {
    Pubkey::new_from_array([n; 32])
}

fn empty_pool() -> OrganizersPool {
    let mut pool = OrganizersPool { organizers: vec![org_key(99)] };
    initialize_organizers_pool(&mut pool).unwrap();
    pool
}

#[test]
fn master_account_has_the_published_address() {
    let expected: [u8; 32] = [
        52, 45, 23, 56, 39, 79, 187, 231, 135, 40, 64, 144, 67, 160, 158, 16, 91, 148, 21, 80, 222,
        248, 215, 73, 112, 120, 145, 236, 66, 108, 161, 244,
    ];
    assert_eq!(master_account().to_bytes(), expected);
}

#[test]
fn initialize_pool_empties_it() {
    assert!(empty_pool().organizers.is_empty());
}

#[test]
fn master_adds_organizer() {
    let mut pool = empty_pool();
    assert_eq!(add_organizer(&mut pool, master_account(), org_key(1)), Ok(()));
    assert_eq!(add_organizer(&mut pool, master_account(), org_key(2)), Ok(()));
    assert_eq!(pool.organizers, vec![org_key(1), org_key(2)]);
}

#[test]
fn stranger_cannot_add_organizer() {
    let mut pool = empty_pool();
    assert_eq!(add_organizer(&mut pool, org_key(5), org_key(1)), Err(ErrorCode::Unauthorized));
    assert!(pool.organizers.is_empty());
}

#[test]
fn organizer_is_registered_once() {
    let mut pool = empty_pool();
    add_organizer(&mut pool, master_account(), org_key(1)).unwrap();
    assert_eq!(add_organizer(&mut pool, master_account(), org_key(1)), Err(ErrorCode::AlreadyRegistered));
    assert_eq!(pool.organizers, vec![org_key(1)]);
}

#[test]
fn master_removes_organizer() {
    let mut pool = empty_pool();
    for n in 1..=3 {
        add_organizer(&mut pool, master_account(), org_key(n)).unwrap();
    }
    assert_eq!(remove_organizer(&mut pool, master_account(), org_key(2)), Ok(()));
    assert_eq!(pool.organizers, vec![org_key(1), org_key(3)]);
}

#[test]
fn removing_unknown_organizer_is_refused() {
    let mut pool = empty_pool();
    add_organizer(&mut pool, master_account(), org_key(1)).unwrap();
    assert_eq!(remove_organizer(&mut pool, master_account(), org_key(2)), Err(ErrorCode::OrganizerNotFound));
    assert_eq!(remove_organizer(&mut pool, org_key(1), org_key(1)), Err(ErrorCode::Unauthorized));
    assert_eq!(pool.organizers, vec![org_key(1)]);
}

#[test]
fn remove_after_add_restores_pool() {
    let mut pool = empty_pool();
    add_organizer(&mut pool, master_account(), org_key(1)).unwrap();
    let before = pool.clone();
    add_organizer(&mut pool, master_account(), org_key(4)).unwrap();
    remove_organizer(&mut pool, master_account(), org_key(4)).unwrap();
    assert_eq!(pool, before);
}
