//! The first word of a text: where it ends, and the word itself as a slice
//! of the text.

use vstd::prelude::*;
use vstd::utf8::{
    encode_utf8, encode_utf8_valid_utf8, is_char_boundary_iff_not_is_continuation_byte,
};

verus! {

/// The byte of a space.
pub const SPACE: u8 = 0x20;

/// `end` is where `bytes` first holds the byte `stop`, or the end of
/// `bytes` where it holds none.
pub open spec fn is_first_stop(bytes: Seq<u8>, stop: u8, end: int) -> bool {
    &&& 0 <= end <= bytes.len()
    &&& forall|i: int| 0 <= i < end ==> bytes[i] != stop
    &&& end < bytes.len() ==> bytes[end] == stop
}

/// `end` is where the first word of `bytes` ends: at the first space, or at
/// the end of `bytes` where there is no space.
pub open spec fn is_first_word_end(bytes: Seq<u8>, end: int) -> bool {
    is_first_stop(bytes, SPACE, end)
}

/// At most one index is the first stop.
pub proof fn first_stop_is_unique(bytes: Seq<u8>, stop: u8, a: int, b: int)
    requires
        is_first_stop(bytes, stop, a),
        is_first_stop(bytes, stop, b),
    ensures
        a == b,
{
    if a < b {
        assert(bytes[a] != stop);
    } else if b < a {
        assert(bytes[b] != stop);
    }
}

/// The index, counted in bytes, at which the first word of `s` ends.
pub fn first_word(s: &String) -> (end: usize)
    ensures
        is_first_word_end(encode_utf8(s@), end as int),
{
    let bytes = s.as_str().as_bytes();
    let mut i: usize = 0;
    while i < bytes.len()
        invariant
            bytes@ == encode_utf8(s@),
            i <= bytes@.len(),
            forall|j: int| 0 <= j < i ==> bytes@[j] != SPACE,
        decreases bytes@.len() - i,
    {
        if bytes[i] == SPACE {
            return i;
        }
        i += 1;
    }
    bytes.len()
}

/// The text of `s` before its first byte `stop`, or all of `s` where it
/// holds no such byte. The byte has to stand for a character by itself.
pub fn text_before(s: &str, stop: u8) -> (piece: &str)
    requires
        stop < 0x80,
    ensures
        is_first_stop(encode_utf8(s@), stop, encode_utf8(piece@).len() as int),
        encode_utf8(piece@) == encode_utf8(s@).take(encode_utf8(piece@).len() as int),
{
    let bytes = s.as_bytes();
    let mut i: usize = 0;
    while i < bytes.len()
        invariant
            stop < 0x80,
            bytes@ == encode_utf8(s@),
            i <= bytes@.len(),
            forall|j: int| 0 <= j < i ==> bytes@[j] != stop,
        decreases bytes@.len() - i,
    {
        if bytes[i] == stop {
            proof {
                encode_utf8_valid_utf8(s@);
                is_char_boundary_iff_not_is_continuation_byte(encode_utf8(s@), i as int);
            }
            let (piece, _rest) = s.split_at(i);
            return piece;
        }
        i += 1;
    }
    assert(encode_utf8(s@).take(encode_utf8(s@).len() as int) == encode_utf8(s@));
    s
}

/// The first word of `s`: the text before the first space, or all of `s`
/// where there is no space.
pub fn better_first_word(s: &str) -> (word: &str)
    ensures
        is_first_word_end(encode_utf8(s@), encode_utf8(word@).len() as int),
        encode_utf8(word@) == encode_utf8(s@).take(encode_utf8(word@).len() as int),
{
    text_before(s, SPACE)
}

} // verus!
