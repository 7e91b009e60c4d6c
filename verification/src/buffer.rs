//! Sentinel-terminated buffers, and the marshalling of text into them.

use crate::error::Error;
use vstd::prelude::*;
use vstd::slice::slice_to_vec;
use vstd::utf8::{
    char_is_scalar, char_u32_cast, encode_scalar, encode_utf8, last_continuation_byte,
    leading_byte_width_1, leading_byte_width_2, leading_byte_width_3, leading_byte_width_4,
    second_last_continuation_byte, third_last_continuation_byte,
};

verus! {

/// The byte that ends an encoded buffer. No text that is marshalled may hold it.
pub const SENTINEL: u8 = 0;

/// The bytes of a text: its UTF-8 encoding.
pub open spec fn text_bytes(text: Seq<char>) -> Seq<u8> {
    encode_utf8(text)
}

/// Whether the sentinel occurs anywhere among `bytes`.
pub open spec fn holds_sentinel(bytes: Seq<u8>) -> bool {
    bytes.contains(SENTINEL)
}

/// Whether the first sentinel of `bytes` stands at index `n`.
pub open spec fn terminator_at(bytes: Seq<u8>, n: int) -> bool {
    &&& 0 <= n < bytes.len()
    &&& bytes[n] == SENTINEL
    &&& !holds_sentinel(bytes.take(n))
}

/// `content` followed by exactly one sentinel.
pub open spec fn terminated(content: Seq<u8>) -> Seq<u8> {
    content.push(SENTINEL)
}

/// Whether `bytes` are some sentinel-free content followed by one sentinel.
pub open spec fn is_encoded(bytes: Seq<u8>) -> bool {
    &&& bytes.len() > 0
    &&& bytes.last() == SENTINEL
    &&& !holds_sentinel(bytes.drop_last())
}

/// What marshalling a text yields: the terminated bytes of the text, or an
/// encoding error where the text holds the sentinel.
pub open spec fn marshal_spec(text: Seq<char>) -> Result<Seq<u8>, Error> {
    if holds_sentinel(text_bytes(text)) {
        Err(Error::Encoding)
    } else {
        Ok(terminated(text_bytes(text)))
    }
}

/// A byte buffer that is safe to hand across the bridge: content without a
/// sentinel, followed by one sentinel.
///
/// The buffer owns its bytes. Whoever holds the buffer lends the bytes out for
/// the length of a call and releases them by dropping the buffer.
#[derive(Debug)]
pub struct EncodedBuffer {
    bytes: Vec<u8>,
}

impl View for EncodedBuffer {
    type V = Seq<u8>;

    /// All the bytes of the buffer, the closing sentinel included.
    closed spec fn view(&self) -> Seq<u8> {
        self.bytes@
    }
}

impl EncodedBuffer {
    /// Every buffer is encoded: this holds of each value of the type.
    #[verifier::type_invariant]
    pub open spec fn well_formed(&self) -> bool {
        is_encoded(self@)
    }

    /// All the bytes of the buffer, the closing sentinel included.
    pub fn as_bytes(&self) -> (bytes: &[u8])
        ensures
            bytes@ == self@,
            is_encoded(bytes@),
    {
        proof {
            use_type_invariant(self);
        }
        self.bytes.as_slice()
    }
}

/// Of the bytes that UTF-8 is made of, only the one byte of the scalar zero is
/// the sentinel.
proof fn lemma_bytes_of_scalar(scalar: u32)
    by (bit_vector)
    ensures
        scalar <= 0x7F ==> (leading_byte_width_1(scalar) == 0 <==> scalar == 0),
        leading_byte_width_2(scalar) != 0,
        leading_byte_width_3(scalar) != 0,
        leading_byte_width_4(scalar) != 0,
        last_continuation_byte(scalar) != 0,
        second_last_continuation_byte(scalar) != 0,
        third_last_continuation_byte(scalar) != 0,
{
}

/// The encoding of one scalar holds the sentinel exactly where the scalar is
/// zero.
proof fn lemma_sentinel_in_scalar(scalar: u32)
    ensures
        holds_sentinel(encode_scalar(scalar)) <==> scalar == 0,
{
    lemma_bytes_of_scalar(scalar);
    let bytes = encode_scalar(scalar);
    if scalar == 0 {
        assert(bytes[0] == SENTINEL);
    }
}

/// The sentinel occurs among the bytes of a text exactly where the text holds
/// the character NUL.
pub proof fn lemma_sentinel_is_nul(text: Seq<char>)
    ensures
        holds_sentinel(text_bytes(text)) <==> text.contains('\0'),
    decreases text.len(),
{
    if text.len() > 0 {
        char_is_scalar(text[0]);
        char_u32_cast(text[0], text[0] as u32);
        char_u32_cast('\0', 0u32);
        let head = encode_scalar(text[0] as u32);
        let rest = text.drop_first();
        let tail = text_bytes(rest);
        lemma_sentinel_in_scalar(text[0] as u32);
        lemma_sentinel_is_nul(rest);
        if holds_sentinel(head) {
            let i = choose|i: int| 0 <= i < head.len() && head[i] == SENTINEL;
            assert((head + tail)[i] == SENTINEL);
        }
        if holds_sentinel(tail) {
            let i = choose|i: int| 0 <= i < tail.len() && tail[i] == SENTINEL;
            assert((head + tail)[head.len() + i] == SENTINEL);
        }
        if text.contains('\0') && text[0] != '\0' {
            let j = choose|j: int| 0 <= j < text.len() && text[j] == '\0';
            assert(rest[j - 1] == '\0');
        }
    }
}

/// The index of the first sentinel among `bytes`, if there is one.
pub fn find_sentinel(bytes: &[u8]) -> (found: Option<usize>)
    ensures
        match found {
            Some(n) => terminator_at(bytes@, n as int),
            None => !holds_sentinel(bytes@),
        },
{
    let mut i: usize = 0;
    while i < bytes.len()
        invariant
            i <= bytes@.len(),
            !holds_sentinel(bytes@.take(i as int)),
        decreases bytes@.len() - i,
    {
        if bytes[i] == SENTINEL {
            return Some(i);
        }
        i += 1;
    }
    assert(bytes@.take(i as int) == bytes@);
    None
}

/// Marshals a text into an encoded buffer.
///
/// A text that holds the sentinel byte cannot be encoded and is rejected, never
/// cut short. Any other text, the empty one too, gives its exact bytes followed
/// by one sentinel.
pub fn marshal(text: &str) -> (result: Result<EncodedBuffer, Error>)
    ensures
        match result {
            Ok(buffer) => marshal_spec(text@) == Ok::<Seq<u8>, Error>(buffer@),
            Err(error) => marshal_spec(text@) == Err::<Seq<u8>, Error>(error),
        },
        result is Err <==> text@.contains('\0'),
{
    proof {
        lemma_sentinel_is_nul(text@);
    }
    let source = text.as_bytes();
    match find_sentinel(source) {
        Some(_) => Err(Error::Encoding),
        None => {
            let mut bytes = slice_to_vec(source);
            bytes.push(SENTINEL);
            Ok(EncodedBuffer { bytes })
        },
    }
}

} // verus!
