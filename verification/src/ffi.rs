//! Text that the driver writes into buffers of fixed size.
//!
//! The driver ends each text with a NUL byte. A buffer without one, or one
//! whose text is not UTF-8, is reported as the error `Unknown`.

use crate::error::{Result, UhdError};
use crate::text::{find, lemma_find_is};
use vstd::prelude::*;
use vstd::slice::slice_subrange;
use vstd::string::StringSliceAdditionalSpecFns;
use vstd::utf8::{decode_utf8, encode_utf8_decode_utf8, valid_utf8};

verus! {

/// The error of `core::str::from_utf8`, carried as an opaque value.
#[verifier::external_type_specification]
#[verifier::external_body]
pub struct ExUtf8Error(core::str::Utf8Error);

/// `core::str::from_utf8` succeeds exactly on the byte sequences that are
/// valid UTF-8, and the string slice it returns then holds those bytes.
pub assume_specification[ core::str::from_utf8 ](v: &[u8]) -> (res: core::result::Result<
    &str,
    core::str::Utf8Error,
>)
    ensures
        res is Ok <==> valid_utf8(v@),
        res is Ok ==> res->Ok_0.spec_bytes() == v@,
;

/// The position of the first NUL byte of `bytes`, or the length of `bytes`
/// if there is none.
pub open spec fn terminator(bytes: Seq<u8>) -> int {
    find(bytes, 0u8)
}

/// The bytes before the first NUL byte.
pub open spec fn c_text(bytes: Seq<u8>) -> Seq<u8> {
    bytes.take(terminator(bytes))
}

/// Whether `bytes` holds a text that the library accepts: it is ended by a
/// NUL byte, and what stands before that byte is valid UTF-8.
pub open spec fn is_c_string(bytes: Seq<u8>) -> bool {
    terminator(bytes) < bytes.len() && valid_utf8(c_text(bytes))
}

/// Reads the text that the driver wrote into a buffer.
///
/// Returns the text before the first NUL byte, or the error `Unknown` if
/// the buffer holds no NUL byte or the text is not valid UTF-8.
pub fn string_from_buffer(bytes: &[u8]) -> (res: Result<String>)
    ensures
        res is Ok <==> is_c_string(bytes@),
        res is Ok ==> res->Ok_0@ == decode_utf8(c_text(bytes@)),
        res is Err ==> res->Err_0 == UhdError::Unknown,
{
    let mut end: usize = 0;
    while end < bytes.len() && bytes[end] != 0
        invariant
            end <= bytes.len(),
            forall|i: int| 0 <= i < end ==> #[trigger] bytes@[i] != 0,
        decreases bytes.len() - end,
    {
        end += 1;
    }
    proof {
        lemma_find_is(bytes@, 0u8, end as int);
    }
    if end == bytes.len() {
        return Err(UhdError::Unknown);
    }
    let text = slice_subrange(bytes, 0, end);
    assert(text@ == c_text(bytes@));
    match core::str::from_utf8(text) {
        Ok(s) => {
            proof {
                encode_utf8_decode_utf8(s@);
            }
            Ok(s.to_owned())
        },
        Err(_) => Err(UhdError::Unknown),
    }
}

/// A buffer of fixed size for a text that the driver writes.
pub struct FfiString {
    s: Vec<u8>,
}

impl View for FfiString {
    type V = Seq<u8>;

    closed spec fn view(&self) -> Seq<u8> {
        self.s@
    }
}

impl FfiString {
    /// A buffer of `len` zero bytes. It takes a text of `len - 1` bytes and
    /// its NUL byte.
    pub fn with_capacity(len: usize) -> (buf: Self)
        requires
            len != 0,
        ensures
            buf@.len() == len,
            forall|i: int| 0 <= i < len ==> buf@[i] == 0,
    {
        let mut s: Vec<u8> = Vec::with_capacity(len);
        let mut i: usize = 0;
        while i < len
            invariant
                i <= len,
                s.len() == i,
                forall|j: int| 0 <= j < i ==> s[j] == 0,
            decreases len - i,
        {
            s.push(0);
            i += 1;
        }
        FfiString { s }
    }

    /// A buffer that holds what the driver wrote.
    pub fn from_bytes(bytes: Vec<u8>) -> (buf: Self)
        ensures
            buf@ == bytes@,
    {
        FfiString { s: bytes }
    }

    /// The bytes of the buffer, for the driver to write into.
    pub fn into_bytes(self) -> (bytes: Vec<u8>)
        ensures
            bytes@ == self@,
    {
        self.s
    }

    /// The number of bytes that the buffer holds.
    pub fn max_chars(&self) -> (n: usize)
        ensures
            n == self@.len(),
    {
        self.s.len()
    }

    /// The text in the buffer.
    ///
    /// Returns the error `Unknown` if the buffer holds no NUL byte or the
    /// text before the first one is not valid UTF-8.
    pub fn into_string(self) -> (res: Result<String>)
        ensures
            res is Ok <==> is_c_string(self@),
            res is Ok ==> res->Ok_0@ == decode_utf8(c_text(self@)),
            res is Err ==> res->Err_0 == UhdError::Unknown,
    {
        string_from_buffer(self.s.as_slice())
    }
}

} // verus!
