//! Null-terminated byte strings, as the engine's entry points take them.
use vstd::prelude::*;
use vstd::slice::slice_to_vec;
use vstd::string::StringSliceAdditionalSpecFns;
use crate::error::EncodingError;

verus! {

/// Whether `bytes` holds a zero byte, which would end a null-terminated string early.
pub open spec fn has_nul(bytes: Seq<u8>) -> bool {
    exists|i: int| 0 <= i < bytes.len() && bytes[i] == 0
}

/// Whether `position` is where the first zero byte of `bytes` stands.
pub open spec fn is_first_nul(bytes: Seq<u8>, position: int) -> bool {
    &&& 0 <= position < bytes.len()
    &&& bytes[position] == 0
    &&& forall|j: int| 0 <= j < position ==> bytes[j] != 0
}

/// The null-terminated form of `bytes`: the bytes themselves, then the terminator.
pub open spec fn terminated(bytes: Seq<u8>) -> Seq<u8> {
    bytes.push(0)
}

/// Whether `bytes` is a well-formed null-terminated string: it ends in its only zero byte.
pub open spec fn is_c_string(bytes: Seq<u8>) -> bool {
    &&& bytes.len() > 0
    &&& bytes.last() == 0
    &&& !has_nul(bytes.drop_last())
}

/// A byte string has at most one first zero byte.
pub proof fn lemma_first_nul_unique(bytes: Seq<u8>, first: int, second: int)
    requires
        is_first_nul(bytes, first),
        is_first_nul(bytes, second),
    ensures
        first == second,
{
    if first < second {
        assert(bytes[first] != 0);
    } else if second < first {
        assert(bytes[second] != 0);
    }
}

/// The first zero byte of `bytes`, if there is one.
pub fn find_nul(bytes: &[u8]) -> (found: Option<usize>)
    ensures
        match found {
            Some(position) => is_first_nul(bytes@, position as int),
            None => !has_nul(bytes@),
        },
{
    let mut i: usize = 0;
    while i < bytes.len()
        invariant
            i <= bytes.len(),
            forall|j: int| 0 <= j < i ==> bytes@[j] != 0,
        decreases bytes.len() - i,
    {
        if bytes[i] == 0 {
            return Some(i);
        }
        i += 1;
    }
    None
}

/// Encodes `text` as a null-terminated byte string.
///
/// Succeeds exactly when the UTF-8 encoding of `text` holds no zero byte; the result is
/// then that encoding followed by one terminator. Otherwise the error gives the place of
/// the first zero byte.
pub fn c_string(text: &str) -> (encoded: Result<Vec<u8>, EncodingError>)
    ensures
        match encoded {
            Ok(bytes) => {
                &&& !has_nul(text.spec_bytes())
                &&& bytes@ == terminated(text.spec_bytes())
                &&& is_c_string(bytes@)
            },
            Err(error) => is_first_nul(text.spec_bytes(), error.position as int),
        },
{
    let source = text.as_bytes();
    match find_nul(source) {
        Some(position) => Err(EncodingError { position }),
        None => {
            let mut bytes: Vec<u8> = slice_to_vec(source);
            bytes.push(0);
            proof {
                assert(bytes@.drop_last() =~= source@);
            }
            Ok(bytes)
        },
    }
}

} // verus!
