//! The text form of a network's identity.
//!
//! A grant carries the network it is meant for in its tag, as text. The text
//! form is the one that the rest of the ecosystem uses, and it is made and
//! read by `holo_hash`, not here.

use vstd::prelude::*;
use vstd::utf8::{encode_utf8, is_char_boundary};
use crate::address::NetworkId;

verus! {

/// The text that `holo_hash::holo_hash_encode` gives for `bytes`.
pub uninterp spec fn hash_to_b64(bytes: Seq<u8>) -> Seq<char>;

/// The bytes that `holo_hash::DnaHashB64::from_b64_str` reads from `text`,
/// where it reads any.
pub uninterp spec fn dna_hash_from_b64(text: Seq<char>) -> Option<Seq<u8>>;

/// Calls `holo_hash::holo_hash_encode`, which writes `u` and then the bytes
/// in the URL-safe base 64 alphabet without padding. The call is trusted to
/// depend on the bytes alone.
#[verifier::external_body]
fn encode_hash(bytes: &Vec<u8>) -> (text: String)
    ensures
        text@ == hash_to_b64(bytes@),
{
    holo_hash::holo_hash_encode(bytes.as_slice())
}

/// Calls `holo_hash::DnaHashB64::from_b64_str`, which reads the text form of
/// a network's identity back: it wants the leading `u`, base 64 after it, 39
/// bytes in all, a checksum in the last four that fits the 32 before them,
/// and the prefix of a network's identity in the first three. It slices off
/// the first byte of the text before anything else, so the text must have a
/// character boundary there. The call is trusted to depend on the text alone.
#[verifier::external_body]
fn decode_dna_hash(text: &str) -> (bytes: Option<Vec<u8>>)
    requires
        starts_with_one_byte(text@),
    ensures
        bytes matches Some(read) ==> dna_hash_from_b64(text@) == Some(read@),
        bytes is None ==> dna_hash_from_b64(text@) is None,
{
    match holo_hash::DnaHashB64::from_b64_str(text) {
        Ok(hash) => Some(holo_hash::DnaHash::from(hash).into_inner()),
        Err(_) => None,
    }
}

/// Whether `text` has a first character, and that character is one byte
/// long in UTF-8.
pub open spec fn starts_with_one_byte(text: Seq<char>) -> bool {
    is_char_boundary(encode_utf8(text), 1)
}

/// The network that `text` names, if it names one.
pub open spec fn spec_network_from_tag(text: Seq<char>) -> Option<Seq<u8>> {
    if starts_with_one_byte(text) {
        dna_hash_from_b64(text)
    } else {
        None
    }
}

/// The tag that names `network`.
pub fn network_tag(network: &NetworkId) -> (tag: String)
    ensures
        tag@ == hash_to_b64(network@),
{
    encode_hash(&network.bytes)
}

/// The network that `tag` names. A tag that is empty, or that starts with a
/// character of more than one byte, names none.
pub fn network_from_tag(tag: &str) -> (network: Option<NetworkId>)
    ensures
        network matches Some(id) ==> spec_network_from_tag(tag@) == Some(id@),
        network is None ==> spec_network_from_tag(tag@) is None,
{
    if !tag.is_char_boundary(1) {
        return None;
    }
    match decode_dna_hash(tag) {
        Some(bytes) => Some(NetworkId::new(bytes)),
        None => None,
    }
}

} // verus!
