//! The decoding of a sentinel-terminated buffer back into text.

use crate::buffer::{
    find_sentinel, holds_sentinel, marshal_spec, terminator_at, text_bytes, SENTINEL,
};
use crate::error::Error;
use vstd::prelude::*;
use vstd::slice::slice_subrange;
use vstd::utf8::{decode_utf8, encode_utf8_decode_utf8, encode_utf8_valid_utf8, valid_utf8};

verus! {

/// The error of `core::str::from_utf8`. Nothing is read out of it.
#[verifier::external_type_specification]
#[verifier::external_body]
pub struct ExUtf8Error(core::str::Utf8Error);

/// `core::str::from_utf8` checks that a byte slice is valid UTF-8 and, where it
/// is, hands the same bytes back as a string slice; where it is not, it
/// returns an error. Believed, not proved: the slice is accepted exactly when
/// `valid_utf8` holds of it, and the bytes of the string are then the bytes
/// of the slice.
pub assume_specification[ core::str::from_utf8 ](v: &[u8]) -> (result: Result<
    &str,
    core::str::Utf8Error,
>)
    ensures
        result is Ok <==> valid_utf8(v@),
        result matches Ok(text) ==> text_bytes(text@) == v@,
;

/// The bytes of `buffer` before its first sentinel, if it holds one.
pub open spec fn content_of(buffer: Seq<u8>) -> Option<Seq<u8>> {
    match buffer.index_of_first(SENTINEL) {
        Some(n) => Some(buffer.take(n)),
        None => None,
    }
}

/// What decoding a buffer yields: the text whose bytes stand before the first
/// sentinel, or an encoding error where the buffer holds no sentinel or those
/// bytes are not valid UTF-8.
pub open spec fn decode_spec(buffer: Seq<u8>) -> Result<Seq<char>, Error> {
    match content_of(buffer) {
        Some(content) => if valid_utf8(content) {
            Ok(decode_utf8(content))
        } else {
            Err(Error::Encoding)
        },
        None => Err(Error::Encoding),
    }
}

/// A buffer's first sentinel is where `terminator_at` says, and nowhere else.
pub proof fn lemma_terminator_is_first(buffer: Seq<u8>, n: int)
    requires
        terminator_at(buffer, n),
    ensures
        buffer.index_of_first(SENTINEL) == Some(n),
        content_of(buffer) == Some(buffer.take(n)),
{
    buffer.index_of_first_ensures(SENTINEL);
    let first = buffer.index_of_first(SENTINEL);
    let m = first->Some_0;
    if m < n {
        assert(buffer.take(n)[m] == SENTINEL);
    }
}

/// Decodes the text of a sentinel-terminated buffer into memory of the
/// caller's own.
///
/// The bytes up to the first sentinel are read and nothing after it. The
/// buffer is only borrowed: it is neither kept nor released here.
pub fn decode(buffer: &[u8]) -> (result: Result<String, Error>)
    ensures
        match result {
            Ok(text) => decode_spec(buffer@) == Ok::<Seq<char>, Error>(text@),
            Err(error) => decode_spec(buffer@) == Err::<Seq<char>, Error>(error),
        },
{
    match find_sentinel(buffer) {
        None => {
            proof {
                buffer@.index_of_first_ensures(SENTINEL);
            }
            Err(Error::Encoding)
        },
        Some(n) => {
            proof {
                lemma_terminator_is_first(buffer@, n as int);
            }
            let content = slice_subrange(buffer, 0, n);
            match core::str::from_utf8(content) {
                Ok(text) => {
                    proof {
                        encode_utf8_decode_utf8(text@);
                    }
                    Ok(text.to_owned())
                },
                Err(_) => Err(Error::Encoding),
            }
        },
    }
}

/// Round trip: a text without the sentinel is marshalled, and decoding the
/// bytes that come out gives the same text back.
pub proof fn lemma_round_trip(text: Seq<char>)
    requires
        !holds_sentinel(text_bytes(text)),
    ensures
        marshal_spec(text) is Ok,
        decode_spec(marshal_spec(text)->Ok_0) == Ok::<Seq<char>, Error>(text),
{
    let content = text_bytes(text);
    let buffer = marshal_spec(text)->Ok_0;
    assert(buffer.take(content.len() as int) == content);
    lemma_terminator_is_first(buffer, content.len() as int);
    encode_utf8_valid_utf8(text);
    encode_utf8_decode_utf8(text);
}

} // verus!
