//! Signed-authentication codec: a keyed-hash signature over
//! `api_key || timestamp`, rendered as lowercase hex.

use vstd::prelude::*;

use crate::numeric::{dec_of, is_digit, u64_to_dec};
use hmac::Mac;

verus! {

/// The canonical lowercase character for one hex digit value.
pub open spec fn hex_digit(d: nat) -> char {
    if d == 1 {
        '1'
    } else if d == 2 {
        '2'
    } else if d == 3 {
        '3'
    } else if d == 4 {
        '4'
    } else if d == 5 {
        '5'
    } else if d == 6 {
        '6'
    } else if d == 7 {
        '7'
    } else if d == 8 {
        '8'
    } else if d == 9 {
        '9'
    } else if d == 10 {
        'a'
    } else if d == 11 {
        'b'
    } else if d == 12 {
        'c'
    } else if d == 13 {
        'd'
    } else if d == 14 {
        'e'
    } else if d == 15 {
        'f'
    } else {
        '0'
    }
}

/// The lowercase hex text of a byte sequence, high nibble first.
pub open spec fn hex_of(bytes: Seq<u8>) -> Seq<char>
    decreases bytes.len(),
{
    if bytes.len() == 0 {
        Seq::empty()
    } else {
        seq![hex_digit((bytes[0] >> 4) as nat), hex_digit((bytes[0] & 0x0f) as nat)] + hex_of(
            bytes.drop_first(),
        )
    }
}

/// Whether a character is a lowercase hex digit.
pub open spec fn is_hex_lower(c: char) -> bool {
    is_digit(c) || c == 'a' || c == 'b' || c == 'c' || c == 'd' || c == 'e' || c == 'f'
}

pub proof fn lemma_hex_of_shape(bytes: Seq<u8>)
    ensures
        hex_of(bytes).len() == 2 * bytes.len(),
        forall|i: int| 0 <= i < hex_of(bytes).len() ==> is_hex_lower(#[trigger] hex_of(bytes)[i]),
    decreases bytes.len(),
{
    if bytes.len() > 0 {
        lemma_hex_of_shape(bytes.drop_first());
        let b = bytes[0];
        assert((b >> 4) < 16 && (b & 0x0f) < 16) by (bit_vector);
    }
}

/// The canonical lowercase character for one hex digit value below
/// sixteen.
pub fn hex_char(d: u8) -> (c: char)
    requires
        d < 16,
    ensures
        c == hex_digit(d as nat),
{
    if d == 1 {
        '1'
    } else if d == 2 {
        '2'
    } else if d == 3 {
        '3'
    } else if d == 4 {
        '4'
    } else if d == 5 {
        '5'
    } else if d == 6 {
        '6'
    } else if d == 7 {
        '7'
    } else if d == 8 {
        '8'
    } else if d == 9 {
        '9'
    } else if d == 10 {
        'a'
    } else if d == 11 {
        'b'
    } else if d == 12 {
        'c'
    } else if d == 13 {
        'd'
    } else if d == 14 {
        'e'
    } else if d == 15 {
        'f'
    } else {
        '0'
    }
}

/// The keyed digest that the hmac and sha2 crates compute: a function of the
/// key and message alone.
pub uninterp spec fn hmac_sha256_of(key: Seq<char>, message: Seq<char>) -> Seq<u8>;

/// Relies on `Hmac::<Sha256>` of the hmac crate: the keyed digest of the
/// message, 32 bytes, depending on the key and the message alone; a key of
/// any length is accepted.
#[verifier::external_body]
fn hmac_sha256(key: &str, message: &str) -> (r: Vec<u8>)
    ensures
        r@ == hmac_sha256_of(key@, message@),
        r@.len() == 32,
{
    let mut mac = hmac::Hmac::<sha2::Sha256>::new_from_slice(key.as_bytes())
        .expect("a key of any length is accepted");
    mac.update(message.as_bytes());
    mac.finalize().into_bytes().to_vec()
}

/// Relies on `hex::encode`: the lowercase hex text of the bytes, high
/// nibble first.
#[verifier::external_body]
fn hex_encode(bytes: &[u8]) -> (r: String)
    ensures
        r@ == hex_of(bytes@),
{
    hex::encode(bytes)
}

/// The signature for an (api_key, timestamp, secret) triple. Being a spec
/// function, it is deterministic: identical inputs give an identical
/// signature.
pub open spec fn signature_of(api_key: Seq<char>, timestamp: u64, secret: Seq<char>) -> Seq<char> {
    hex_of(hmac_sha256_of(secret, api_key + dec_of(timestamp as nat)))
}

/// Signs `api_key || timestamp` with the secret as key; the result is the
/// lowercase hex text of a 256-bit keyed digest. It is deterministic — the
/// result equals `signature_of` of the inputs alone — and is always 64
/// lowercase hex characters.
pub fn sign(api_key: &str, timestamp: u64, secret: &str) -> (r: String)
    ensures
        r@ == signature_of(api_key@, timestamp, secret@),
        r@.len() == 64,
        forall|i: int| 0 <= i < r@.len() ==> is_hex_lower(#[trigger] r@[i]),
{
    let mut message = api_key.to_owned();
    let ts = u64_to_dec(timestamp);
    message.append(ts.as_str());
    let digest = hmac_sha256(secret, message.as_str());
    let hexed = hex_encode(digest.as_slice());
    proof {
        lemma_hex_of_shape(hmac_sha256_of(secret@, api_key@ + dec_of(timestamp as nat)));
    }
    hexed
}

} // verus!
