//! The byte encoding of the values that nodes exchange and store (`bincode`),
//! reached through trusted items.
use vstd::prelude::*;
use vstd::bytes::{spec_u64_from_le_bytes, spec_u64_to_le_bytes};
use vstd::utf8::{decode_utf8, encode_utf8, valid_utf8};
use std::collections::HashMap;

verus! {

/// The encoding of a string: its length in UTF-8 bytes as a little-endian `u64`,
/// then those bytes.
pub open spec fn encoded_string(s: Seq<char>) -> Seq<u8> {
    spec_u64_to_le_bytes(encode_utf8(s).len() as u64) + encode_utf8(s)
}

/// The map of ids to addresses that `bytes` decodes to, if they decode to one.
pub uninterp spec fn decoded_map(bytes: Seq<u8>) -> Option<Map<u64, String>>;

/// The (leader id, leader address) pair that `bytes` decode to, if they decode to one: a
/// little-endian `u64`, then the address as its byte length (a little-endian `u64`) and
/// that many bytes of valid UTF-8. Bytes after that are ignored.
pub open spec fn decoded_redirect(bytes: Seq<u8>) -> Option<(u64, Seq<char>)> {
    if bytes.len() < 16 {
        None
    } else {
        let n = spec_u64_from_le_bytes(bytes.subrange(8, 16));
        if bytes.len() - 16 < n || !valid_utf8(bytes.subrange(16, 16 + n)) {
            None
        } else {
            Some((spec_u64_from_le_bytes(bytes.subrange(0, 8)), decode_utf8(bytes.subrange(16, 16 + n))))
        }
    }
}

/// The (leader id, node id, peer addresses) triple that `bytes` decodes to, if they decode to one.
pub uninterp spec fn decoded_assignment(bytes: Seq<u8>) -> Option<(u64, u64, Map<u64, String>)>;

/// `bincode::serialize` of a `String`: with the default (fixed-width, little-endian)
/// options it writes the byte length as a `u64`, then the UTF-8 bytes; writing into a
/// vector cannot fail.
#[verifier::external_body]
pub(crate) fn encode_string(s: &String) -> (r: Result<Vec<u8>, String>)
    ensures
        r is Ok,
        r->Ok_0@ == encoded_string(s@),
{
    bincode::serialize(s).map_err(|e| e.to_string())
}

/// `bincode::serialize` of a `HashMap<u64, String>`: cannot fail, and what it writes
/// decodes back to the same map. The order of the pairs in the bytes follows the map's
/// iteration order, which this contract leaves open.
#[verifier::external_body]
pub(crate) fn encode_map(m: &HashMap<u64, String>) -> (r: Result<Vec<u8>, String>)
    ensures
        r is Ok,
        decoded_map(r->Ok_0@) == Some(m@),
{
    bincode::serialize(m).map_err(|e| e.to_string())
}

/// `bincode::deserialize::<HashMap<u64, String>>`: the decoded map, or the decoder's
/// message when the bytes do not decode to one.
#[verifier::external_body]
pub(crate) fn decode_map(bytes: &[u8]) -> (r: Result<HashMap<u64, String>, String>)
    ensures
        r is Ok <==> decoded_map(bytes@) is Some,
        r is Ok ==> decoded_map(bytes@) == Some(r->Ok_0@),
{
    bincode::deserialize(bytes).map_err(|e| e.to_string())
}

/// `bincode::deserialize::<(u64, String)>` with the default (fixed-width, little-endian,
/// trailing bytes allowed) options: the decoded pair, or the decoder's message when the
/// bytes run out or the string is not UTF-8.
#[verifier::external_body]
pub(crate) fn decode_redirect(bytes: &[u8]) -> (r: Result<(u64, String), String>)
    ensures
        r is Ok <==> decoded_redirect(bytes@) is Some,
        r is Ok ==> decoded_redirect(bytes@) == Some((r->Ok_0.0, r->Ok_0.1@)),
{
    bincode::deserialize(bytes).map_err(|e| e.to_string())
}

/// `bincode::deserialize::<(u64, u64, HashMap<u64, String>)>`: the decoded triple, or
/// the decoder's message.
#[verifier::external_body]
pub(crate) fn decode_assignment(bytes: &[u8]) -> (r: Result<(u64, u64, HashMap<u64, String>), String>)
    ensures
        r is Ok <==> decoded_assignment(bytes@) is Some,
        r is Ok ==> decoded_assignment(bytes@) == Some((r->Ok_0.0, r->Ok_0.1, r->Ok_0.2@)),
{
    bincode::deserialize(bytes).map_err(|e| e.to_string())
}

} // verus!
