use vstd::prelude::*;
use vstd::bytes::{spec_u64_to_le_bytes, u64_to_le_bytes};
use vstd::string::*;
use base64::Engine;

use crate::encoding::{
    base64_encode_shape, base64_standard, base64_url_unpadded, standard_alphabet, url_safe_alphabet,
};
use crate::pubkey::Pubkey;

verus! {

/// The SHA-256 digest that the runtime's `hash` gives for a byte string.
pub uninterp spec fn sha256_of(data: Seq<u8>) -> Seq<u8>;

/// `solana_program::hash::hash`, a SHA-256 digest of `data` (32 bytes).
/// Trusted: the digest is taken to be `sha256_of(data)`; nothing about SHA-256 is stated.
#[verifier::external_body]
fn sha256_digest(data: &[u8]) -> (digest: [u8; 32])
    ensures
        digest@ == sha256_of(data@),
{
    anchor_lang::solana_program::hash::hash(data).to_bytes()
}

/// `base64::engine::general_purpose::URL_SAFE_NO_PAD.encode` on a 32-byte digest.
/// Trusted: the text is the RFC 4648 encoding over the URL-safe alphabet without
/// padding, as `base64_url_unpadded` states it.
#[verifier::external_body]
fn encode_base64_url_unpadded(digest: &[u8; 32]) -> (text: String)
    ensures
        text@ == base64_url_unpadded(digest@),
{
    base64::engine::general_purpose::URL_SAFE_NO_PAD.encode(digest)
}

/// `base64::encode` (the standard alphabet, padded) on a 32-byte digest.
/// Trusted: the text is the RFC 4648 encoding over the standard alphabet with `=`
/// padding, as `base64_standard` states it.
#[verifier::external_body]
#[allow(deprecated)]
fn encode_base64_standard(digest: &[u8; 32]) -> (text: String)
    ensures
        text@ == base64_standard(digest@),
{
    base64::encode(digest)
}

/// The number of characters that an identifier keeps of its encoded digest.
pub open spec fn id_len() -> nat {
    12
}

/// The first characters of `text`, at most `id_len()` of them.
pub open spec fn spec_short_id(text: Seq<char>) -> Seq<char> {
    if text.len() <= id_len() {
        text
    } else {
        text.take(id_len() as int)
    }
}

/// The bytes that an event identifier is derived from.
pub open spec fn event_id_seed() -> Seq<u8> {
    seq![51u8, 51u8, 57u8, 53u8, 54u8, 50u8]
}

/// The seed, the event's name, its date as 8 little-endian bytes, and the organizer's address.
pub open spec fn event_id_preimage(name: Seq<u8>, event_date: i64, organizer: Pubkey) -> Seq<u8> {
    event_id_seed() + name + spec_u64_to_le_bytes(event_date as u64) + organizer.bytes@
}

/// The identifier of an event: the first 12 characters of the unpadded URL-safe
/// base64 text of the digest of its preimage.
pub open spec fn spec_event_id(name: Seq<u8>, event_date: i64, organizer: Pubkey) -> Seq<char> {
    spec_short_id(base64_url_unpadded(sha256_of(event_id_preimage(name, event_date, organizer))))
}

/// The buyer's address, the event id, the event name, the section name, the row and the seat.
pub open spec fn ticket_id_preimage(
    buyer: Pubkey,
    event_id: Seq<u8>,
    event_name: Seq<u8>,
    section_name: Seq<u8>,
    row: u8,
    seat: u8,
) -> Seq<u8> {
    buyer.bytes@ + event_id + event_name + section_name + seq![row, seat]
}

/// The identifier of a ticket: the first 12 characters of the standard base64 text
/// of the digest of its preimage.
pub open spec fn spec_ticket_id(
    buyer: Pubkey,
    event_id: Seq<u8>,
    event_name: Seq<u8>,
    section_name: Seq<u8>,
    row: u8,
    seat: u8,
) -> Seq<char> {
    spec_short_id(
        base64_standard(
            sha256_of(ticket_id_preimage(buyer, event_id, event_name, section_name, row, seat)),
        ),
    )
}

/// The longest event name, in bytes, whose preimage fits the 128-byte buffer.
pub open spec fn max_event_name_bytes() -> nat {
    82
}

/// The most bytes that the three names of a ticket may take together, so that the
/// preimage fits the 256-byte buffer.
pub open spec fn max_ticket_names_bytes() -> nat {
    222
}

fn append_bytes(buffer: &mut Vec<u8>, bytes: &[u8])
    ensures
        final(buffer)@ == old(buffer)@ + bytes@,
{
    let mut i: usize = 0;
    while i < bytes.len()
        invariant
            i <= bytes@.len(),
            buffer@ == old(buffer)@ + bytes@.take(i as int),
        decreases bytes@.len() - i,
    {
        buffer.push(bytes[i]);
        i = i + 1;
        assert(bytes@.take(i as int) =~= bytes@.take(i - 1).push(bytes@[i - 1]));
    }
    assert(bytes@.take(i as int) =~= bytes@);
}

/// The bytes an event identifier is derived from.
pub fn event_id_preimage_bytes(name: &str, event_date: i64, organizer: &Pubkey) -> (bytes: Vec<u8>)
    ensures
        bytes@ == event_id_preimage(name.spec_bytes(), event_date, *organizer),
{
    let mut buffer: Vec<u8> = Vec::new();
    let seed: [u8; 6] = [51u8, 51u8, 57u8, 53u8, 54u8, 50u8];
    append_bytes(&mut buffer, seed.as_slice());
    assert(buffer@ =~= event_id_seed());
    append_bytes(&mut buffer, name.as_bytes());
    let date_bytes = u64_to_le_bytes(event_date as u64);
    append_bytes(&mut buffer, date_bytes.as_slice());
    append_bytes(&mut buffer, organizer.bytes.as_slice());
    buffer
}

/// The bytes a ticket identifier is derived from.
pub fn ticket_id_preimage_bytes(
    buyer: &Pubkey,
    event_id: &str,
    event_name: &str,
    section_name: &str,
    row: u8,
    seat: u8,
) -> (bytes: Vec<u8>)
    ensures
        bytes@ == ticket_id_preimage(
            *buyer,
            event_id.spec_bytes(),
            event_name.spec_bytes(),
            section_name.spec_bytes(),
            row,
            seat,
        ),
{
    let mut buffer: Vec<u8> = Vec::new();
    append_bytes(&mut buffer, buyer.bytes.as_slice());
    append_bytes(&mut buffer, event_id.as_bytes());
    append_bytes(&mut buffer, event_name.as_bytes());
    append_bytes(&mut buffer, section_name.as_bytes());
    let ghost before = buffer@;
    buffer.push(row);
    buffer.push(seat);
    assert(buffer@ =~= before + seq![row, seat]);
    buffer
}

/// The first characters of an encoded digest that an identifier keeps.
pub fn short_id(encoded: &str) -> (id: String)
    ensures
        id@ == spec_short_id(encoded@),
{
    let len = encoded.unicode_len();
    if len <= 12 {
        assert(encoded@.subrange(0, len as int) =~= encoded@);
        String::from_str(encoded.substring_char(0, len))
    } else {
        String::from_str(encoded.substring_char(0, 12))
    }
}

/// The identifier of an event with this name, date and organizer.
pub fn generate_event_id(name: &str, event_date: i64, organizer: &Pubkey) -> (id: String)
    requires
        name.spec_bytes().len() <= max_event_name_bytes(),
    ensures
        id@ == spec_event_id(name.spec_bytes(), event_date, *organizer),
        id@.len() == id_len(),
        forall|i: int| 0 <= i < id@.len() ==> url_safe_alphabet().contains(#[trigger] id@[i]),
{
    let preimage = event_id_preimage_bytes(name, event_date, organizer);
    let digest = sha256_digest(preimage.as_slice());
    let encoded = encode_base64_url_unpadded(&digest);
    proof {
        base64_encode_shape(url_safe_alphabet(), false, digest@);
    }
    let id = short_id(encoded.as_str());
    assert forall|i: int| 0 <= i < id@.len() implies url_safe_alphabet().contains(#[trigger] id@[i]) by {
        assert(id@[i] == encoded@[i]);
    }
    id
}

/// The identifier of a ticket for this buyer, event and seat.
pub fn generate_ticket_id(
    buyer: &Pubkey,
    event_id: &str,
    event_name: &str,
    section_name: &str,
    row: u8,
    seat: u8,
) -> (id: String)
    requires
        event_id.spec_bytes().len() + event_name.spec_bytes().len() + section_name.spec_bytes().len()
            <= max_ticket_names_bytes(),
    ensures
        id@ == spec_ticket_id(
            *buyer,
            event_id.spec_bytes(),
            event_name.spec_bytes(),
            section_name.spec_bytes(),
            row,
            seat,
        ),
        id@.len() == id_len(),
        forall|i: int| 0 <= i < id@.len() ==> standard_alphabet().contains(#[trigger] id@[i]),
{
    let preimage = ticket_id_preimage_bytes(buyer, event_id, event_name, section_name, row, seat);
    let digest = sha256_digest(preimage.as_slice());
    let encoded = encode_base64_standard(&digest);
    proof {
        base64_encode_shape(standard_alphabet(), true, digest@);
    }
    let id = short_id(encoded.as_str());
    assert forall|i: int| 0 <= i < id@.len() implies standard_alphabet().contains(#[trigger] id@[i]) by {
        assert(id@[i] == encoded@[i]);
    }
    id
}

} // verus!
