//! Cache keys: the lowercase hex of the SHA-256 of `album/DD/TT`.

use crate::text::{push_two_digits, two_digits};
use sha2::{Digest, Sha256};
use vstd::prelude::*;
use vstd::utf8::encode_utf8;

verus! {

/// The SHA-256 digest of a byte string, as the `sha2` crate computes it.
pub uninterp spec fn sha256(data: Seq<u8>) -> Seq<u8>;

/// Feeds `data` to `sha2::Sha256` (`new`, `update`, `finalize`) and returns the
/// digest. Trusted: the result is the SHA-256 of the input, a function of the
/// input alone, and it is 32 bytes long.
#[verifier::external_body]
fn sha256_digest(data: &[u8]) -> (digest: Vec<u8>)
    ensures
        digest@ == sha256(data@),
        digest@.len() == 32,
{
    let mut hasher = Sha256::new();
    Sha256::update(&mut hasher, data);
    hasher.finalize().to_vec()
}

/// Calls `hex::encode`. Trusted: every byte becomes two lowercase hex digits,
/// the high half first.
#[verifier::external_body]
fn hex_encode(data: &[u8]) -> (text: String)
    ensures
        text@ == hex_lower(data@),
{
    hex::encode(data)
}

/// The hex digit for a value below 16.
pub open spec fn hex_digit(n: int) -> char {
    seq!['0', '1', '2', '3', '4', '5', '6', '7', '8', '9', 'a', 'b', 'c', 'd', 'e', 'f'][n]
}

/// The lowercase hex encoding of a byte string.
pub open spec fn hex_lower(data: Seq<u8>) -> Seq<char> {
    Seq::new(
        2 * data.len(),
        |i: int|
            if i % 2 == 0 {
                hex_digit(data[i / 2] as int / 16)
            } else {
                hex_digit(data[i / 2] as int % 16)
            },
    )
}

/// The text that names a track: `album/DD/TT`.
pub open spec fn spec_track_label(album: Seq<char>, disc: u8, track: u8) -> Seq<char> {
    album + seq!['/'] + two_digits(disc as nat) + seq!['/'] + two_digits(track as nat)
}

/// The key of a text: the hex of the SHA-256 of its UTF-8 bytes.
pub open spec fn spec_hash(text: Seq<char>) -> Seq<char> {
    hex_lower(sha256(encode_utf8(text)))
}

/// The key of a track.
pub open spec fn spec_cache_key(album: Seq<char>, disc: u8, track: u8) -> Seq<char> {
    spec_hash(spec_track_label(album, disc, track))
}

/// The text `album/DD/TT` for a track.
pub fn track_label(album_id: &str, disc_id: u8, track_id: u8) -> (label: String)
    ensures
        label@ == spec_track_label(album_id@, disc_id, track_id),
{
    proof {
        reveal_strlit("/");
    }
    let mut label = album_id.to_owned();
    label.append("/");
    push_two_digits(&mut label, disc_id as usize);
    label.append("/");
    push_two_digits(&mut label, track_id as usize);
    assert(label@ =~= spec_track_label(album_id@, disc_id, track_id));
    label
}

/// A byte string in lowercase hex.
pub fn hex_string(data: &[u8]) -> (text: String)
    ensures
        text@ == hex_lower(data@),
        text@.len() == 2 * data@.len(),
{
    hex_encode(data)
}

/// The key of a text: 64 lowercase hex digits.
pub fn do_hash(key: String) -> (hash: String)
    ensures
        hash@ == spec_hash(key@),
        hash@.len() == 64,
{
    let digest = sha256_digest(key.as_str().as_bytes());
    hex_string(digest.as_slice())
}

/// The key under which the cache holds a track.
pub fn cache_key(album_id: &str, disc_id: u8, track_id: u8) -> (key: String)
    ensures
        key@ == spec_cache_key(album_id@, disc_id, track_id),
        key@.len() == 64,
{
    do_hash(track_label(album_id, disc_id, track_id))
}

} // verus!
