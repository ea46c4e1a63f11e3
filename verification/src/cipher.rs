//! The keyed transform: a polyalphabetic letter substitution.
//!
//! Byte `i` of a message is paired with byte `i mod key length` of the key.
//! A letter is rotated within its own case by the key letter's position in
//! the alphabet (`a` and `A` rotate by 0, `z` and `Z` by 25); every other
//! byte passes through unchanged. Decoding rotates back by the same amount.

use vstd::prelude::*;
use crate::error::ProtocolError;

verus! {

/// The byte `A`.
pub const UPPER_A: u8 = 0x41;

/// The byte `Z`.
pub const UPPER_Z: u8 = 0x5a;

/// The byte `a`.
pub const LOWER_A: u8 = 0x61;

/// The byte `z`.
pub const LOWER_Z: u8 = 0x7a;

/// The number of letters.
pub const ALPHABET: u8 = 26;

/// `b` is one of `A` to `Z`.
pub open spec fn spec_is_upper(b: u8) -> bool {
    UPPER_A <= b <= UPPER_Z
}

/// `b` is one of `a` to `z`.
pub open spec fn spec_is_lower(b: u8) -> bool {
    LOWER_A <= b <= LOWER_Z
}

/// `b` is an ASCII letter of either case.
pub open spec fn spec_is_letter(b: u8) -> bool {
    spec_is_upper(b) || spec_is_lower(b)
}

/// The lower-case form of an ASCII letter; any other byte is itself.
pub open spec fn spec_to_lower(b: u8) -> u8 {
    if spec_is_upper(b) {
        (b + 0x20) as u8
    } else {
        b
    }
}

/// Every byte of `s` in lower case.
pub open spec fn lowercase(s: Seq<u8>) -> Seq<u8> {
    Seq::new(s.len(), |i: int| spec_to_lower(s[i]))
}

/// A key is usable when it is non-empty and made of ASCII letters only.
pub open spec fn valid_key(key: Seq<u8>) -> bool {
    &&& key.len() > 0
    &&& forall|i: int| 0 <= i < key.len() ==> spec_is_letter(#[trigger] key[i])
}

/// The rotation that the key prescribes for position `i` of a message: the
/// place in the alphabet of the key letter that the position falls on, the
/// key being repeated as often as needed and read without regard to case.
pub open spec fn key_shift(key: Seq<u8>, i: int) -> int {
    spec_to_lower(key[i % (key.len() as int)]) - LOWER_A
}

/// `b` moved `shift` places along the alphabet of its own case, wrapping
/// round in either direction; a byte that is no letter does not move.
pub open spec fn rotate(b: u8, shift: int) -> u8 {
    if spec_is_upper(b) {
        (UPPER_A + (b - UPPER_A + shift) % (ALPHABET as int)) as u8
    } else if spec_is_lower(b) {
        (LOWER_A + (b - LOWER_A + shift) % (ALPHABET as int)) as u8
    } else {
        b
    }
}

/// The cipher text for `message` under `key`.
pub open spec fn encoded(key: Seq<u8>, message: Seq<u8>) -> Seq<u8> {
    Seq::new(message.len(), |i: int| rotate(message[i], key_shift(key, i)))
}

/// The message that `text` stands for under `key`.
pub open spec fn decoded(key: Seq<u8>, text: Seq<u8>) -> Seq<u8> {
    Seq::new(text.len(), |i: int| rotate(text[i], -key_shift(key, i)))
}

/// Tells whether `b` is an ASCII letter.
#[verifier::when_used_as_spec(spec_is_letter)]
pub fn is_letter(b: u8) -> (r: bool)
    ensures
        r == spec_is_letter(b),
{
    (UPPER_A <= b && b <= UPPER_Z) || (LOWER_A <= b && b <= LOWER_Z)
}

/// The lower-case form of `b`.
#[verifier::when_used_as_spec(spec_to_lower)]
pub fn to_lower(b: u8) -> (r: u8)
    ensures
        r == spec_to_lower(b),
{
    if UPPER_A <= b && b <= UPPER_Z {
        b + 0x20
    } else {
        b
    }
}

/// Tells whether `key` may be used with [`encode`] and [`decode`].
pub fn is_valid_key(key: &[u8]) -> (r: bool)
    ensures
        r == valid_key(key@),
{
    if key.len() == 0 {
        return false;
    }
    let mut i: usize = 0;
    while i < key.len()
        invariant
            i <= key.len(),
            forall|j: int| 0 <= j < i ==> spec_is_letter(#[trigger] key@[j]),
        decreases key.len() - i,
    {
        if !is_letter(key[i]) {
            return false;
        }
        i += 1;
    }
    true
}

/// Rotates one byte forward by `shift` places.
fn rotate_forward(b: u8, shift: u8) -> (r: u8)
    requires
        shift < ALPHABET,
    ensures
        r == rotate(b, shift as int),
{
    if UPPER_A <= b && b <= UPPER_Z {
        UPPER_A + (b - UPPER_A + shift) % ALPHABET
    } else if LOWER_A <= b && b <= LOWER_Z {
        LOWER_A + (b - LOWER_A + shift) % ALPHABET
    } else {
        b
    }
}

/// Rotates one byte back by `shift` places.
fn rotate_back(b: u8, shift: u8) -> (r: u8)
    requires
        shift < ALPHABET,
    ensures
        r == rotate(b, -(shift as int)),
{
    if UPPER_A <= b && b <= UPPER_Z {
        UPPER_A + (b - UPPER_A + (ALPHABET - shift)) % ALPHABET
    } else if LOWER_A <= b && b <= LOWER_Z {
        LOWER_A + (b - LOWER_A + (ALPHABET - shift)) % ALPHABET
    } else {
        b
    }
}

/// The rotation for position `i`, as a number below 26.
fn shift_at(key: &[u8], i: usize) -> (r: u8)
    requires
        valid_key(key@),
    ensures
        r == key_shift(key@, i as int),
        r < ALPHABET,
{
    let k: u8 = key[i % key.len()];
    to_lower(k) - LOWER_A
}

/// Encodes `message` under `key`.
///
/// Fails with `InvalidKey` exactly when the key is empty or holds a byte
/// that is not an ASCII letter; otherwise the result has the length of the
/// message, differs from it only in its letters, and decodes to it.
pub fn encode(key: &[u8], message: &[u8]) -> (r: Result<Vec<u8>, ProtocolError>)
    ensures
        valid_key(key@) ==> r is Ok && r->Ok_0@ == encoded(key@, message@),
        valid_key(key@) ==> decoded(key@, r->Ok_0@) == message@,
        !valid_key(key@) ==> r == Err::<Vec<u8>, ProtocolError>(ProtocolError::InvalidKey),
{
    if !is_valid_key(key) {
        return Err(ProtocolError::InvalidKey);
    }
    proof {
        decode_inverts_encode(key@, message@);
    }
    let mut text: Vec<u8> = Vec::new();
    let mut i: usize = 0;
    while i < message.len()
        invariant
            i <= message.len(),
            valid_key(key@),
            text@.len() == i,
            forall|j: int| 0 <= j < i ==> text@[j] == rotate(message@[j], key_shift(key@, j)),
        decreases message.len() - i,
    {
        let shift: u8 = shift_at(key, i);
        text.push(rotate_forward(message[i], shift));
        i += 1;
    }
    Ok(text)
}

/// Decodes `text` under `key`: the inverse of [`encode`].
///
/// Fails with `InvalidKey` exactly when the key is empty or holds a byte
/// that is not an ASCII letter; otherwise the result encodes to `text`.
pub fn decode(key: &[u8], text: &[u8]) -> (r: Result<Vec<u8>, ProtocolError>)
    ensures
        valid_key(key@) ==> r is Ok && r->Ok_0@ == decoded(key@, text@),
        valid_key(key@) ==> encoded(key@, r->Ok_0@) == text@,
        !valid_key(key@) ==> r == Err::<Vec<u8>, ProtocolError>(ProtocolError::InvalidKey),
{
    if !is_valid_key(key) {
        return Err(ProtocolError::InvalidKey);
    }
    proof {
        encode_inverts_decode(key@, text@);
    }
    let mut message: Vec<u8> = Vec::new();
    let mut i: usize = 0;
    while i < text.len()
        invariant
            i <= text.len(),
            valid_key(key@),
            message@.len() == i,
            forall|j: int| 0 <= j < i ==> message@[j] == rotate(text@[j], -key_shift(key@, j)),
        decreases text.len() - i,
    {
        let shift: u8 = shift_at(key, i);
        message.push(rotate_back(text[i], shift));
        i += 1;
    }
    Ok(message)
}

/// A rotation keeps a byte in its class: an upper-case letter stays one, a
/// lower-case letter stays one, and any other byte stays what it is.
pub proof fn rotate_keeps_case(b: u8, shift: int)
    ensures
        spec_is_upper(rotate(b, shift)) == spec_is_upper(b),
        spec_is_lower(rotate(b, shift)) == spec_is_lower(b),
        !spec_is_letter(b) ==> rotate(b, shift) == b,
{
}

/// Rotating back undoes rotating forth, for every byte and every amount.
pub proof fn rotate_back_inverts_rotate(b: u8, shift: int)
    ensures
        rotate(rotate(b, shift), -shift) == b,
{
    rotate_keeps_case(b, shift);
    if spec_is_upper(b) {
        let x: int = b - UPPER_A;
        assert(((x + shift) % 26 - shift) % 26 == x);
    } else if spec_is_lower(b) {
        let x: int = b - LOWER_A;
        assert(((x + shift) % 26 - shift) % 26 == x);
    }
}

/// Decoding inverts encoding: under a valid key, the decoded form of the
/// encoded form of a message is the message, whatever bytes it holds.
pub proof fn decode_inverts_encode(key: Seq<u8>, message: Seq<u8>)
    requires
        valid_key(key),
    ensures
        decoded(key, encoded(key, message)) == message,
{
    assert forall|i: int| 0 <= i < message.len() implies decoded(key, encoded(key, message))[i]
        == message[i] by {
        rotate_back_inverts_rotate(message[i], key_shift(key, i));
    }
    assert(decoded(key, encoded(key, message)) =~= message);
}

/// Encoding inverts decoding: under a valid key, every text is the encoded
/// form of exactly the message it decodes to.
pub proof fn encode_inverts_decode(key: Seq<u8>, text: Seq<u8>)
    requires
        valid_key(key),
    ensures
        encoded(key, decoded(key, text)) == text,
{
    assert forall|i: int| 0 <= i < text.len() implies encoded(key, decoded(key, text))[i]
        == text[i] by {
        rotate_back_inverts_rotate(text[i], -key_shift(key, i));
    }
    assert(encoded(key, decoded(key, text)) =~= text);
}

/// The transform reads the key through its lower-case form only: a key and
/// its lower-case form encode and decode alike, and are valid together.
pub proof fn key_case_is_ignored(key: Seq<u8>, message: Seq<u8>)
    ensures
        valid_key(lowercase(key)) == valid_key(key),
        encoded(lowercase(key), message) == encoded(key, message),
        decoded(lowercase(key), message) == decoded(key, message),
{
    let low = lowercase(key);
    if valid_key(key) {
        assert forall|i: int| 0 <= i < low.len() implies spec_is_letter(#[trigger] low[i]) by {
            assert(spec_is_letter(key[i]));
        }
    }
    if valid_key(low) {
        assert forall|i: int| 0 <= i < key.len() implies spec_is_letter(#[trigger] key[i]) by {
            assert(spec_is_letter(low[i]));
        }
    }
    if key.len() > 0 {
        assert forall|i: int| 0 <= i < message.len() implies key_shift(low, i) == key_shift(
            key,
            i,
        ) by {
            let k = i % (key.len() as int);
            assert(0 <= k < key.len());
            assert(low[k] == spec_to_lower(key[k]));
        }
    } else {
        assert(low =~= key);
    }
    assert(encoded(low, message) =~= encoded(key, message));
    assert(decoded(low, message) =~= decoded(key, message));
}

} // verus!
