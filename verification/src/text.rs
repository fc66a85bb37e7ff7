//! Comparing strings and header names.

use vstd::prelude::*;
use vstd::utf8::encode_utf8;
use vstd::utf8::encode_utf8_decode_utf8;

verus! {

/// The bytes that a string holds: its characters in UTF-8.
pub open spec fn utf8(text: Seq<char>) -> Seq<u8> {
    encode_utf8(text)
}

/// Two strings with the same bytes are the same string.
pub proof fn lemma_utf8_is_injective(left: Seq<char>, right: Seq<char>)
    requires
        utf8(left) == utf8(right),
    ensures
        left == right,
{
    encode_utf8_decode_utf8(left);
    encode_utf8_decode_utf8(right);
}

/// Whether two byte strings are equal.
pub fn bytes_eq(left: &[u8], right: &[u8]) -> (same: bool)
    ensures
        same == (left@ == right@),
{
    let length = left.len();
    if length != right.len() {
        return false;
    }
    let mut at: usize = 0;
    while at < length
        invariant
            0 <= at <= length,
            length == left@.len(),
            length == right@.len(),
            forall|k: int| 0 <= k < at ==> left@[k] == right@[k],
        decreases length - at,
    {
        if left[at] != right[at] {
            return false;
        }
        at += 1;
    }
    assert(left@ =~= right@);
    true
}

/// Whether two strings hold the same characters.
pub fn str_eq(left: &str, right: &str) -> (same: bool)
    ensures
        same == (left@ == right@),
{
    let same = bytes_eq(left.as_bytes(), right.as_bytes());
    proof {
        if same {
            lemma_utf8_is_injective(left@, right@);
        }
    }
    same
}

/// The bytes of a string, copied.
pub fn bytes_of(text: &str) -> (bytes: Vec<u8>)
    ensures
        bytes@ == utf8(text@),
{
    let mut bytes: Vec<u8> = Vec::new();
    bytes.extend_from_slice(text.as_bytes());
    assert(bytes@ =~= utf8(text@));
    bytes
}

/// A byte with an ASCII capital letter turned into its small letter.
pub open spec fn lowered(byte: u8) -> u8 {
    if 0x41 <= byte <= 0x5a {
        (byte + 0x20) as u8
    } else {
        byte
    }
}

/// Two header names are the same name: equal but for the case of ASCII
/// letters.
pub open spec fn same_name(left: Seq<u8>, right: Seq<u8>) -> bool {
    &&& left.len() == right.len()
    &&& forall|k: int| 0 <= k < left.len() ==> lowered(left[k]) == lowered(right[k])
}

/// A byte with an ASCII capital letter turned into its small letter.
pub fn to_lower(byte: u8) -> (lower: u8)
    ensures
        lower == lowered(byte),
{
    if 0x41 <= byte && byte <= 0x5a {
        byte + 0x20
    } else {
        byte
    }
}

/// Whether two header names are the same name.
pub fn is_same_name(left: &[u8], right: &[u8]) -> (same: bool)
    ensures
        same == same_name(left@, right@),
{
    let length = left.len();
    if length != right.len() {
        return false;
    }
    let mut at: usize = 0;
    while at < length
        invariant
            0 <= at <= length,
            length == left@.len(),
            length == right@.len(),
            forall|k: int| 0 <= k < at ==> lowered(left@[k]) == lowered(right@[k]),
        decreases length - at,
    {
        if to_lower(left[at]) != to_lower(right[at]) {
            return false;
        }
        at += 1;
    }
    true
}

} // verus!
