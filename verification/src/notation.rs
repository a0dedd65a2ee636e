//! How hashes are written in the arguments and results of calls.

use vstd::prelude::*;
use vstd::utf8::{encode_utf8, is_ascii_chars_encode_utf8};
use bitcoin::util::hash::Sha256dHash;
use crate::hexcode::{digits_bytes, hex_encoding, law_hex_round_trip, leading_digits};

verus! {

#[verifier::external_type_specification]
#[verifier::external_body]
pub struct ExSha256dHash(bitcoin::util::hash::Sha256dHash);

/// The 32 bytes of `hash`, in the order in which they are hashed and sent
/// between nodes.
pub uninterp spec fn hash_bytes(hash: Sha256dHash) -> Seq<u8>;

/// The text that stands for `hash` in a call: its bytes in hexadecimal, the
/// last byte first.
pub open spec fn hash_text(hash: Sha256dHash) -> Seq<char> {
    hex_encoding(hash_bytes(hash).reverse())
}

/// Whether `text` is made of 64 hexadecimal digits and nothing else.
pub open spec fn is_hash_text(text: Seq<char>) -> bool {
    encode_utf8(text).len() == 64 && leading_digits(encode_utf8(text)) == 64
}

/// The bytes of the hash that `text` stands for: those that its digits
/// spell, the last first.
pub open spec fn text_hash_bytes(text: Seq<char>) -> Seq<u8> {
    digits_bytes(encode_utf8(text)).reverse()
}

/// The text of a hash stands for a hash of the same bytes.
pub proof fn law_hash_text_round_trip(hash: Sha256dHash)
    requires
        hash_bytes(hash).len() == 32,
    ensures
        is_hash_text(hash_text(hash)),
        text_hash_bytes(hash_text(hash)) == hash_bytes(hash),
{
    let bytes = hash_bytes(hash);
    law_hex_round_trip(bytes.reverse());
    is_ascii_chars_encode_utf8(hash_text(hash));
    assert(bytes.reverse().reverse() =~= bytes);
}

/// Calls `Sha256dHash::be_hex_string`, which writes the 32 bytes from the
/// last to the first, each as two lower-case digits, the high half first: 64
/// digits in all.  The hash is serialised as the same text.
#[verifier::external_body]
pub(crate) fn hash_to_text(hash: &Sha256dHash) -> (text: String)
    ensures
        text@ == hash_text(*hash),
        text@.len() == 64,
{
    hash.be_hex_string()
}

/// Calls `Sha256dHash::from_hex`, which takes a text of 64 bytes that are all
/// hexadecimal digits, in either case, and no other, and fills the hash from
/// its last byte to its first with what each pair of digits spells.  The
/// error, which says which of the two failed, is dropped.
#[verifier::external_body]
pub(crate) fn hash_from_text(text: &str) -> (hash: Option<Sha256dHash>)
    ensures
        match hash {
            Some(h) => is_hash_text(text@) && hash_bytes(h) == text_hash_bytes(text@),
            None => !is_hash_text(text@),
        },
{
    Sha256dHash::from_hex(text).ok()
}

/// The text that stands for `hash` in a call.  Every hash has 32 bytes, so
/// the text has 64 digits and stands for the same hash again.
pub fn hash_string(hash: &Sha256dHash) -> (text: String)
    ensures
        text@ == hash_text(*hash),
        hash_bytes(*hash).len() == 32,
        is_hash_text(text@),
        text_hash_bytes(text@) == hash_bytes(*hash),
{
    let text = hash_to_text(hash);
    proof {
        assert(hash_bytes(*hash).reverse().len() == hash_bytes(*hash).len());
        law_hash_text_round_trip(*hash);
    }
    text
}

} // verus!
