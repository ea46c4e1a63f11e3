//! The wire frame: `key|message`, at most 1024 bytes, one frame per read
//! and per write.
//!
//! A frame carries no length of its own. The sender writes the lower-case
//! key, one delimiter byte and the message; the receiver splits what one
//! read returned at the first delimiter. Only the bytes that the read
//! reported count: whatever else the buffer holds is never looked at.

use vstd::prelude::*;
use vstd::slice::slice_subrange;
use vstd::slice::slice_to_vec;
use crate::cipher::lowercase;
use crate::cipher::spec_is_letter;
use crate::cipher::to_lower;
use crate::cipher::valid_key;
use crate::error::ProtocolError;

verus! {

/// The size of the transmission buffer, and so the longest frame.
pub const FRAME_CAPACITY: usize = 1024;

/// The byte `|`, which parts the key from the message.
pub const DELIMITER: u8 = 0x7c;

/// The frame for `key` and `message`: the key in lower case, the delimiter,
/// the message as it is.
pub open spec fn frame_bytes(key: Seq<u8>, message: Seq<u8>) -> Seq<u8> {
    lowercase(key).push(DELIMITER) + message
}

/// Some byte of `bytes` is the delimiter.
pub open spec fn has_delimiter(bytes: Seq<u8>) -> bool {
    exists|i: int| 0 <= i < bytes.len() && #[trigger] bytes[i] == DELIMITER
}

/// The first delimiter of `bytes` stands at index `at`.
pub open spec fn splits_at(bytes: Seq<u8>, at: int) -> bool {
    &&& 0 <= at < bytes.len()
    &&& bytes[at] == DELIMITER
    &&& forall|j: int| 0 <= j < at ==> #[trigger] bytes[j] != DELIMITER
}

/// Key and message of a received frame: what stands before its first
/// delimiter and what follows it. `None` when it holds no delimiter.
pub open spec fn parsed_frame(bytes: Seq<u8>) -> Option<(Seq<u8>, Seq<u8>)> {
    if exists|at: int| splits_at(bytes, at) {
        let at = choose|at: int| splits_at(bytes, at);
        Some((bytes.subrange(0, at), bytes.subrange(at + 1, bytes.len() as int)))
    } else {
        None
    }
}

/// A sequence has at most one first delimiter.
pub proof fn split_point_is_unique(bytes: Seq<u8>, a: int, b: int)
    requires
        splits_at(bytes, a),
        splits_at(bytes, b),
    ensures
        a == b,
{
    if a < b {
        assert(bytes[a] != DELIMITER);
    } else if b < a {
        assert(bytes[b] != DELIMITER);
    }
}

/// Where the first delimiter stands decides what a frame parses to.
pub proof fn parsed_frame_at(bytes: Seq<u8>, at: int)
    requires
        splits_at(bytes, at),
    ensures
        parsed_frame(bytes) == Some(
            (bytes.subrange(0, at), bytes.subrange(at + 1, bytes.len() as int)),
        ),
{
    let chosen = choose|at: int| splits_at(bytes, at);
    split_point_is_unique(bytes, at, chosen);
}

/// Without a delimiter a frame parses to nothing, and only then.
pub proof fn parsed_frame_none(bytes: Seq<u8>)
    ensures
        parsed_frame(bytes) is None <==> !has_delimiter(bytes),
{
    if has_delimiter(bytes) {
        let i = choose|i: int| 0 <= i < bytes.len() && #[trigger] bytes[i] == DELIMITER;
        first_delimiter_exists(bytes, i);
    } else {
        assert forall|at: int| !splits_at(bytes, at) by {
            if 0 <= at < bytes.len() {
                assert(bytes[at] != DELIMITER);
            }
        }
    }
}

/// A delimiter at `i` means that a first delimiter stands at or before `i`.
proof fn first_delimiter_exists(bytes: Seq<u8>, i: int)
    requires
        0 <= i < bytes.len(),
        bytes[i] == DELIMITER,
    ensures
        exists|at: int| splits_at(bytes, at),
    decreases i,
{
    if exists|j: int| 0 <= j < i && #[trigger] bytes[j] == DELIMITER {
        let j = choose|j: int| 0 <= j < i && #[trigger] bytes[j] == DELIMITER;
        first_delimiter_exists(bytes, j);
    } else {
        assert(splits_at(bytes, i));
    }
}

/// A frame that parses is its key, one delimiter and its message, in that
/// order and with nothing else; and the key holds no delimiter.
pub proof fn parsed_frame_rebuilds(bytes: Seq<u8>)
    requires
        parsed_frame(bytes) is Some,
    ensures
        ({
            let (key, message) = parsed_frame(bytes)->0;
            &&& bytes == key.push(DELIMITER) + message
            &&& key.len() + 1 + message.len() == bytes.len()
            &&& !has_delimiter(key)
        }),
{
    let at = choose|at: int| splits_at(bytes, at);
    let (key, message) = parsed_frame(bytes)->0;
    assert(bytes =~= key.push(DELIMITER) + message);
    assert forall|i: int| 0 <= i < key.len() implies #[trigger] key[i] != DELIMITER by {
        assert(bytes[i] != DELIMITER);
    }
}

/// Builds the frame for `key` and `message`.
///
/// Fails with `FrameTooLarge` exactly when key, delimiter and message
/// together are longer than [`FRAME_CAPACITY`]; nothing is cut off. A
/// frame built from a key without a delimiter parses back to that key, in
/// lower case, and to the message.
pub fn encode_frame(key: &[u8], message: &[u8]) -> (r: Result<Vec<u8>, ProtocolError>)
    ensures
        key@.len() + 1 + message@.len() <= FRAME_CAPACITY ==> r is Ok && r->Ok_0@ == frame_bytes(
            key@,
            message@,
        ),
        key@.len() + 1 + message@.len() > FRAME_CAPACITY ==> r == Err::<Vec<u8>, ProtocolError>(
            ProtocolError::FrameTooLarge,
        ),
        r is Ok && !has_delimiter(key@) ==> parsed_frame(r->Ok_0@) == Some(
            (lowercase(key@), message@),
        ),
{
    if key.len() >= FRAME_CAPACITY || message.len() > FRAME_CAPACITY - 1 - key.len() {
        return Err(ProtocolError::FrameTooLarge);
    }
    let mut frame: Vec<u8> = Vec::new();
    let mut i: usize = 0;
    while i < key.len()
        invariant
            i <= key.len(),
            frame@.len() == i,
            forall|j: int| 0 <= j < i ==> frame@[j] == to_lower(key@[j]),
        decreases key.len() - i,
    {
        frame.push(to_lower(key[i]));
        i += 1;
    }
    assert(frame@ =~= lowercase(key@));
    frame.push(DELIMITER);
    frame.extend_from_slice(message);
    proof {
        assert(frame@ =~= frame_bytes(key@, message@));
        if !has_delimiter(key@) {
            decode_frame_inverts_encode_frame(key@, message@);
        }
    }
    Ok(frame)
}

/// Finds the first delimiter among the first `actual_len` bytes.
pub fn find_delimiter(bytes: &[u8], actual_len: usize) -> (r: Option<usize>)
    requires
        actual_len <= bytes@.len(),
    ensures
        match r {
            Some(at) => splits_at(bytes@.take(actual_len as int), at as int),
            None => !has_delimiter(bytes@.take(actual_len as int)),
        },
{
    let ghost received = bytes@.take(actual_len as int);
    let mut i: usize = 0;
    while i < actual_len
        invariant
            i <= actual_len <= bytes@.len(),
            received == bytes@.take(actual_len as int),
            forall|j: int| 0 <= j < i ==> #[trigger] received[j] != DELIMITER,
        decreases actual_len - i,
    {
        if bytes[i] == DELIMITER {
            assert(received[i as int] == DELIMITER);
            return Some(i);
        }
        assert(received[i as int] == bytes@[i as int]);
        i += 1;
    }
    None
}

/// Splits a received frame into key and message.
///
/// `bytes` is the receive buffer and `actual_len` the number of bytes that
/// the read put into it. The frame is split at its first delimiter; it
/// fails with `MalformedFrame` exactly when none of the first `actual_len`
/// bytes is a delimiter. Nothing at or beyond `actual_len` bears on the
/// result.
pub fn decode_frame(bytes: &[u8], actual_len: usize) -> (r: Result<
    (Vec<u8>, Vec<u8>),
    ProtocolError,
>)
    requires
        actual_len <= bytes@.len(),
    ensures
        match r {
            Ok((key, message)) => parsed_frame(bytes@.take(actual_len as int)) == Some(
                (key@, message@),
            ),
            Err(e) => e == ProtocolError::MalformedFrame && parsed_frame(
                bytes@.take(actual_len as int),
            ) is None,
        },
        r is Err <==> !has_delimiter(bytes@.take(actual_len as int)),
{
    let ghost received = bytes@.take(actual_len as int);
    proof {
        parsed_frame_none(received);
    }
    match find_delimiter(bytes, actual_len) {
        None => Err(ProtocolError::MalformedFrame),
        Some(at) => {
            let key: Vec<u8> = slice_to_vec(slice_subrange(bytes, 0, at));
            let message: Vec<u8> = slice_to_vec(slice_subrange(bytes, at + 1, actual_len));
            proof {
                parsed_frame_at(received, at as int);
                assert(key@ =~= received.subrange(0, at as int));
                assert(message@ =~= received.subrange(at + 1, received.len() as int));
            }
            Ok((key, message))
        },
    }
}

/// A valid key holds no delimiter, so a frame built from one splits after it.
pub proof fn valid_key_has_no_delimiter(key: Seq<u8>)
    requires
        valid_key(key),
    ensures
        !has_delimiter(key),
{
    assert forall|i: int| 0 <= i < key.len() implies #[trigger] key[i] != DELIMITER by {
        assert(spec_is_letter(key[i]));
    }
}

/// Decoding a frame inverts building it: a frame built from a key without
/// a delimiter, and from any message, parses to the key in lower case and
/// that same message.
pub proof fn decode_frame_inverts_encode_frame(key: Seq<u8>, message: Seq<u8>)
    requires
        !has_delimiter(key),
    ensures
        parsed_frame(frame_bytes(key, message)) == Some((lowercase(key), message)),
{
    let frame = frame_bytes(key, message);
    let at = key.len() as int;
    assert(frame[at] == DELIMITER);
    assert forall|j: int| 0 <= j < at implies #[trigger] frame[j] != DELIMITER by {
        assert(key[j] != DELIMITER);
        assert(frame[j] == lowercase(key)[j]);
    }
    parsed_frame_at(frame, at);
    assert(frame.subrange(0, at) =~= lowercase(key));
    assert(frame.subrange(at + 1, frame.len() as int) =~= message);
}

} // verus!
