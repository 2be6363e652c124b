use vstd::prelude::*;

verus! {

broadcast use vstd::array::group_array_axioms;

/// A 32-byte account address.
#[derive(Clone, Copy, Debug, PartialEq, Eq, Hash)]
pub struct Pubkey {
    pub bytes: [u8; 32],
}

impl Pubkey {
    /// The address made of the given bytes.
    pub fn new_from_array(bytes: [u8; 32]) -> (key: Pubkey)
        ensures
            key.bytes == bytes,
    {
        Pubkey { bytes }
    }

    /// The all-zero address, the default value of an address.
    pub fn zeroed() -> (key: Pubkey)
        ensures
            key == Pubkey::spec_zeroed(),
    {
        Pubkey { bytes: vstd::array::array_fill_for_copy_types(0u8) }
    }

    /// The all-zero address.
    pub open spec fn spec_zeroed() -> Pubkey {
        Pubkey { bytes: vstd::array::spec_array_fill_for_copy_type::<u8, 32>(0u8) }
    }

    /// The bytes of the address.
    pub fn to_bytes(&self) -> (bytes: [u8; 32])
        ensures
            bytes == self.bytes,
    {
        self.bytes
    }

    /// Whether two addresses are the same address.
    pub fn same_as(&self, other: &Pubkey) -> (same: bool)
        ensures
            same == (*self == *other),
    {
        let mut i: usize = 0;
        while i < 32
            invariant
                i <= 32,
                forall|j: int| 0 <= j < i ==> self.bytes[j] == other.bytes[j],
            decreases 32 - i,
        {
            if self.bytes[i] != other.bytes[i] {
                assert(self.bytes@[i as int] != other.bytes@[i as int]);
                return false;
            }
            i = i + 1;
        }
        assert(self.bytes =~= other.bytes);
        true
    }
}

/// The platform's administrator account (4Wg5ZqjS3AktHzq34hK1T55aFNKSjBpmJ3PyRChpPNDh),
/// which manages the organizers and receives the fee of every ticket sale.
pub open spec fn spec_master_account() -> Pubkey {
    Pubkey { bytes: [52u8, 45u8, 23u8, 56u8, 39u8, 79u8, 187u8, 231u8, 135u8, 40u8, 64u8, 144u8, 67u8, 160u8, 158u8, 16u8, 91u8, 148u8, 21u8, 80u8, 222u8, 248u8, 215u8, 73u8, 112u8, 120u8, 145u8, 236u8, 66u8, 108u8, 161u8, 244u8] }
}

/// The platform's administrator account.
pub fn master_account() -> (key: Pubkey)
    ensures
        key == spec_master_account(),
{
    Pubkey { bytes: [52u8, 45u8, 23u8, 56u8, 39u8, 79u8, 187u8, 231u8, 135u8, 40u8, 64u8, 144u8, 67u8, 160u8, 158u8, 16u8, 91u8, 148u8, 21u8, 80u8, 222u8, 248u8, 215u8, 73u8, 112u8, 120u8, 145u8, 236u8, 66u8, 108u8, 161u8, 244u8] }
}

/// The index of the first occurrence of `key` in `keys`.
pub fn find_key(keys: &Vec<Pubkey>, key: &Pubkey) -> (found: Option<usize>)
    ensures
        found matches Some(i) ==> keys@.index_of_first(*key) == Some(i as int) && i < keys@.len()
            && keys@[i as int] == *key,
        found is None ==> keys@.index_of_first(*key) is None,
        found is Some <==> keys@.contains(*key),
{
    proof {
        keys@.index_of_first_ensures(*key);
    }
    let mut i: usize = 0;
    while i < keys.len()
        invariant
            i <= keys@.len(),
            forall|j: int| 0 <= j < i ==> keys@[j] != *key,
            match keys@.index_of_first(*key) {
                Some(index) => {
                    &&& keys@.contains(*key)
                    &&& 0 <= index < keys@.len()
                    &&& keys@[index] == *key
                    &&& forall|j: int| 0 <= j < index < keys@.len() ==> keys@[j] != *key
                },
                None => !keys@.contains(*key),
            },
        decreases keys@.len() - i,
    {
        if keys[i].same_as(key) {
            assert(keys@.contains(*key));
            let ghost first = keys@.index_of_first(*key).unwrap();
            assert(!(first < i));
            assert(!(i < first));
            return Some(i);
        }
        i = i + 1;
    }
    None
}

/// A copy of a list of addresses.
pub fn copy_keys(keys: &Vec<Pubkey>) -> (copy: Vec<Pubkey>)
    ensures
        copy@ == keys@,
{
    let mut copy: Vec<Pubkey> = Vec::new();
    let mut i: usize = 0;
    while i < keys.len()
        invariant
            i <= keys@.len(),
            copy@ == keys@.take(i as int),
        decreases keys@.len() - i,
    {
        copy.push(keys[i]);
        i = i + 1;
        assert(keys@.take(i as int) =~= keys@.take(i - 1).push(keys@[i - 1]));
    }
    assert(keys@.take(i as int) =~= keys@);
    copy
}

/// Whether `key` occurs in `keys`.
pub fn contains_key(keys: &Vec<Pubkey>, key: &Pubkey) -> (found: bool)
    ensures
        found == keys@.contains(*key),
{
    find_key(keys, key).is_some()
}

} // verus!
