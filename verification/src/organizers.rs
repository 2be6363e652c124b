use vstd::prelude::*;

use crate::error::ErrorCode;
use crate::pubkey::{contains_key, find_key, master_account, spec_master_account, Pubkey};
use crate::state::OrganizersPool;

verus! {

/// Empties the pool of organizers.
pub fn initialize_organizers_pool(pool: &mut OrganizersPool) -> (result: Result<(), ErrorCode>)
    ensures
        result is Ok,
        final(pool).organizers@ == Seq::<Pubkey>::empty(),
{
    pool.organizers = Vec::new();
    Ok(())
}

/// Why `add_organizer` refuses, if it does: only the administrator may add, and
/// an organizer is registered once.
pub open spec fn add_organizer_error(pool: OrganizersPool, signer: Pubkey, new_organizer: Pubkey) -> Option<ErrorCode> {
    if signer != spec_master_account() {
        Some(ErrorCode::Unauthorized)
    } else if pool.organizers@.contains(new_organizer) {
        Some(ErrorCode::AlreadyRegistered)
    } else {
        None
    }
}

/// Registers `new_organizer`, at the request of `signer`.
pub fn add_organizer(pool: &mut OrganizersPool, signer: Pubkey, new_organizer: Pubkey) -> (result: Result<(), ErrorCode>)
    ensures
        match add_organizer_error(*old(pool), signer, new_organizer) {
            Some(e) => result == Err::<(), ErrorCode>(e) && *final(pool) == *old(pool),
            None => result is Ok && final(pool).organizers@ == old(pool).organizers@.push(new_organizer),
        },
{
    if !signer.same_as(&master_account()) {
        return Err(ErrorCode::Unauthorized);
    }
    if contains_key(&pool.organizers, &new_organizer) {
        return Err(ErrorCode::AlreadyRegistered);
    }
    pool.organizers.push(new_organizer);
    Ok(())
}

/// Why `remove_organizer` refuses, if it does: only the administrator may remove,
/// and only a registered organizer.
pub open spec fn remove_organizer_error(pool: OrganizersPool, signer: Pubkey, organizer: Pubkey) -> Option<ErrorCode> {
    if signer != spec_master_account() {
        Some(ErrorCode::Unauthorized)
    } else if !pool.organizers@.contains(organizer) {
        Some(ErrorCode::OrganizerNotFound)
    } else {
        None
    }
}

/// Removes the first occurrence of `organizer_to_remove`, at the request of `signer`.
pub fn remove_organizer(pool: &mut OrganizersPool, signer: Pubkey, organizer_to_remove: Pubkey) -> (result: Result<(), ErrorCode>)
    ensures
        match remove_organizer_error(*old(pool), signer, organizer_to_remove) {
            Some(e) => result == Err::<(), ErrorCode>(e) && *final(pool) == *old(pool),
            None => result is Ok && final(pool).organizers@ == old(pool).organizers@.remove_value(organizer_to_remove),
        },
{
    if !signer.same_as(&master_account()) {
        return Err(ErrorCode::Unauthorized);
    }
    match find_key(&pool.organizers, &organizer_to_remove) {
        None => Err(ErrorCode::OrganizerNotFound),
        Some(index) => {
            pool.organizers.remove(index);
            Ok(())
        },
    }
}

} // verus!
