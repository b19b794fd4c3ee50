//! Reading a property value out of the buffer the engine has filled.
use vstd::prelude::*;
use vstd::slice::slice_subrange;
use vstd::string::StringSliceAdditionalSpecFns;
use vstd::utf8::{
    decode_utf8, encode_utf8_valid_utf8, is_char_boundary_iff_not_is_continuation_byte,
    is_char_boundary_start_end_of_seq, valid_utf8,
};
use crate::encoding::{find_nul, has_nul, is_first_nul, lemma_first_nul_unique};
use crate::error::{EncodingError, LookupError};

verus! {

/// Size in bytes of the buffer a property value is extracted into. A value whose encoded
/// form is longer is cut off at this length.
pub const VALUE_CAPACITY: usize = 4096;

/// The byte that separates the candidate values of a compound property: `|`.
pub const VALUE_SEPARATOR: u8 = 0x7c;

/// Whether a reported length stands for "no value": nothing was written, or at most a
/// bare terminator.
pub open spec fn is_absent(len: int) -> bool {
    len <= 1
}

/// How many bytes of a buffer of `capacity` bytes are read for a reported length `len`:
/// the length itself, cut off at the capacity.
pub open spec fn window_len(capacity: int, len: int) -> int {
    if len <= 0 {
        0
    } else if len >= capacity {
        capacity
    } else {
        len
    }
}

/// `bytes` without the zero bytes at its end.
pub open spec fn strip_padding(bytes: Seq<u8>) -> Seq<u8>
    decreases bytes.len(),
{
    if bytes.len() > 0 && bytes.last() == 0 {
        strip_padding(bytes.drop_last())
    } else {
        bytes
    }
}

/// The bytes of the value that a buffer holds for a reported length: the window that the
/// length selects, without its trailing zero bytes.
pub open spec fn value_bytes(buffer: Seq<u8>, len: int) -> Seq<u8> {
    strip_padding(buffer.take(window_len(buffer.len() as int, len)))
}

/// `strip_padding` keeps a prefix, drops nothing but zero bytes, and leaves no zero byte
/// at the end.
pub proof fn lemma_strip_padding(bytes: Seq<u8>)
    ensures
        strip_padding(bytes).len() <= bytes.len(),
        strip_padding(bytes) == bytes.take(strip_padding(bytes).len() as int),
        forall|i: int| strip_padding(bytes).len() <= i < bytes.len() ==> bytes[i] == 0,
        strip_padding(bytes).len() > 0 ==> strip_padding(bytes).last() != 0,
    decreases bytes.len(),
{
    if bytes.len() > 0 && bytes.last() == 0 {
        let shorter = bytes.drop_last();
        lemma_strip_padding(shorter);
        let kept = strip_padding(shorter).len() as int;
        assert(shorter.take(kept) =~= bytes.take(kept));
        assert forall|i: int| strip_padding(bytes).len() <= i < bytes.len() implies bytes[i]
            == 0 by {
            if i < shorter.len() {
                assert(shorter[i] == bytes[i]);
            }
        }
    } else {
        assert(bytes.take(bytes.len() as int) =~= bytes);
    }
}

/// A prefix of `bytes` that is followed by zero bytes only and does not itself end in
/// one is `strip_padding(bytes)`.
pub proof fn lemma_strip_padding_unique(bytes: Seq<u8>, kept: int)
    requires
        0 <= kept <= bytes.len(),
        forall|i: int| kept <= i < bytes.len() ==> bytes[i] == 0,
        kept > 0 ==> bytes[kept - 1] != 0,
    ensures
        strip_padding(bytes) == bytes.take(kept),
    decreases bytes.len(),
{
    if bytes.len() > 0 && bytes.last() == 0 {
        let shorter = bytes.drop_last();
        lemma_strip_padding_unique(shorter, kept);
        assert(shorter.take(kept) =~= bytes.take(kept));
    } else {
        assert(kept == bytes.len());
        assert(bytes.take(kept) =~= bytes);
    }
}

/// Cuts the trailing zero bytes off `bytes`.
pub fn trim_padding(bytes: &[u8]) -> (trimmed: &[u8])
    ensures
        trimmed@ == strip_padding(bytes@),
{
    let mut kept: usize = bytes.len();
    while kept > 0 && bytes[kept - 1] == 0
        invariant
            kept <= bytes.len(),
            forall|i: int| kept <= i < bytes.len() ==> bytes@[i] == 0,
        decreases kept,
    {
        kept -= 1;
    }
    proof {
        lemma_strip_padding_unique(bytes@, kept as int);
    }
    slice_subrange(bytes, 0, kept)
}

/// The bytes of the value in `buffer` for the length `len` that the engine reported.
/// Never reads past the buffer, however large the reported length.
pub fn value_window(buffer: &[u8], len: i32) -> (window: &[u8])
    ensures
        window@ == value_bytes(buffer@, len as int),
{
    let taken: usize = if len <= 0 {
        0
    } else if len as usize >= buffer.len() {
        buffer.len()
    } else {
        len as usize
    };
    trim_padding(slice_subrange(buffer, 0, taken))
}

/// The text that lossy UTF-8 decoding makes of `bytes`: each malformed sequence is
/// replaced by U+FFFD.
pub uninterp spec fn utf8_lossy(bytes: Seq<u8>) -> Seq<char>;

/// Calls `String::from_utf8_lossy`. Its result depends on the bytes alone and is named
/// `utf8_lossy`; for well-formed UTF-8 it is the text that the bytes encode, as the
/// function then hands back its input unchanged.
#[verifier::external_body]
fn decode_lossy(bytes: &[u8]) -> (text: String)
    ensures
        text@ == utf8_lossy(bytes@),
        valid_utf8(bytes@) ==> text@ == decode_utf8(bytes@),
{
    String::from_utf8_lossy(bytes).into_owned()
}

/// Whether `value` is what reading the property `property_name` from `buffer` and the
/// reported length `len` gives.
///
/// A name that cannot be passed to the engine is an encoding error, which names its first
/// zero byte. A reported length of at most one means that the property has no value for
/// the evaluated address. Otherwise the value is the window that the length selects, cut
/// off at the end of the buffer, with trailing zero bytes removed and decoded as text.
pub open spec fn is_reading(
    value: Result<String, LookupError>,
    property_name: &str,
    buffer: Seq<u8>,
    len: int,
) -> bool {
    match value {
        Ok(text) => {
            &&& !has_nul(property_name.spec_bytes())
            &&& !is_absent(len)
            &&& text@ == utf8_lossy(value_bytes(buffer, len))
            &&& valid_utf8(value_bytes(buffer, len)) ==> text@ == decode_utf8(
                value_bytes(buffer, len),
            )
        },
        Err(LookupError::Encoding(error)) => is_first_nul(
            property_name.spec_bytes(),
            error.position as int,
        ),
        Err(LookupError::NotFound(name)) => {
            &&& !has_nul(property_name.spec_bytes())
            &&& is_absent(len)
            &&& name@ == property_name@
        },
    }
}

/// Whether two readings are the same: the same text, the same missing property, or the
/// same encoding error.
pub open spec fn same_reading(
    first: Result<String, LookupError>,
    second: Result<String, LookupError>,
) -> bool {
    match (first, second) {
        (Ok(a), Ok(b)) => a@ == b@,
        (Err(LookupError::NotFound(a)), Err(LookupError::NotFound(b))) => a@ == b@,
        (Err(LookupError::Encoding(a)), Err(LookupError::Encoding(b))) => a == b,
        _ => false,
    }
}

/// Reads the answer to a property query: `buffer` is the output buffer after the call and
/// `len` the length that the engine reported.
pub fn read_value(property_name: &str, buffer: &[u8], len: i32) -> (value: Result<
    String,
    LookupError,
>)
    ensures
        is_reading(value, property_name, buffer@, len as int),
{
    match find_nul(property_name.as_bytes()) {
        Some(position) => Err(LookupError::Encoding(EncodingError { position })),
        None => {
            if len <= 1 {
                Err(LookupError::NotFound(property_name.to_owned()))
            } else {
                Ok(decode_lossy(value_window(buffer, len)))
            }
        },
    }
}

/// Reading is repeatable: whatever is read twice for the same property name from the same
/// buffer contents and reported length is the same both times.
pub proof fn lemma_reading_repeatable(
    first: Result<String, LookupError>,
    second: Result<String, LookupError>,
    property_name: &str,
    buffer: Seq<u8>,
    len: int,
)
    requires
        is_reading(first, property_name, buffer, len),
        is_reading(second, property_name, buffer, len),
    ensures
        same_reading(first, second),
{
    let bytes = property_name.spec_bytes();
    match (first, second) {
        (Err(LookupError::Encoding(a)), Err(LookupError::Encoding(b))) => {
            lemma_first_nul_unique(bytes, a.position as int, b.position as int);
        },
        (Err(LookupError::Encoding(a)), _) => {
            assert(bytes[a.position as int] == 0);
        },
        (_, Err(LookupError::Encoding(b))) => {
            assert(bytes[b.position as int] == 0);
        },
        _ => {},
    }
}

/// For a name that can be passed to the engine, a value is read exactly when the engine
/// reported more than a bare terminator, and the property is reported missing, under that
/// very name, exactly when it did not.
pub proof fn lemma_found_iff_reported(
    value: Result<String, LookupError>,
    property_name: &str,
    buffer: Seq<u8>,
    len: int,
)
    requires
        is_reading(value, property_name, buffer, len),
        !has_nul(property_name.spec_bytes()),
    ensures
        value is Ok <==> !is_absent(len),
        is_absent(len) <==> (value matches Err(LookupError::NotFound(name)) && name@
            == property_name@),
{
    if let Err(LookupError::Encoding(error)) = value {
        assert(property_name.spec_bytes()[error.position as int] == 0);
    }
}

/// What is read never leaves the buffer: the value is a prefix of the buffer, no longer
/// than the reported length, and does not end in a zero byte. A reported length beyond
/// the buffer's capacity gives the whole buffer without its padding; and where the buffer
/// ends in a terminator, the value stops short of it.
pub proof fn lemma_value_within_buffer(buffer: Seq<u8>, len: int)
    ensures
        value_bytes(buffer, len).len() <= buffer.len(),
        len >= 0 ==> value_bytes(buffer, len).len() <= len,
        value_bytes(buffer, len) == buffer.take(value_bytes(buffer, len).len() as int),
        value_bytes(buffer, len).len() > 0 ==> value_bytes(buffer, len).last() != 0,
        len >= buffer.len() ==> value_bytes(buffer, len) == strip_padding(buffer),
        buffer.len() > 0 && buffer.last() == 0 ==> value_bytes(buffer, len).len() < buffer.len(),
{
    let window = buffer.take(window_len(buffer.len() as int, len));
    lemma_strip_padding(window);
    let kept = strip_padding(window).len() as int;
    assert(window.take(kept) =~= buffer.take(kept));
    if len >= buffer.len() {
        assert(window =~= buffer);
    }
    if buffer.len() > 0 && buffer.last() == 0 && kept == buffer.len() {
        assert(buffer.take(kept) =~= buffer);
    }
}

/// The byte that sets a candidate value apart from its confidence weight: `:`.
pub const WEIGHT_MARK: u8 = 0x3a;

/// Whether the first `length` bytes of `bytes` are all that comes before the first
/// `WEIGHT_MARK`: none of them is the mark, and either the mark follows or `bytes` ends.
pub open spec fn is_before_weight(bytes: Seq<u8>, length: int) -> bool {
    &&& 0 <= length <= bytes.len()
    &&& forall|j: int| 0 <= j < length ==> bytes[j] != WEIGHT_MARK
    &&& length < bytes.len() ==> bytes[length] == WEIGHT_MARK
}

/// The part of an encoded value that comes before its first `:`, which is the first
/// candidate without its confidence weight; the whole value where there is no `:`.
pub fn strip_weight(value: &str) -> (bare: &str)
    ensures
        is_before_weight(value.spec_bytes(), bare.spec_bytes().len() as int),
        bare.spec_bytes() == value.spec_bytes().take(bare.spec_bytes().len() as int),
{
    let bytes = value.as_bytes();
    let mut end: usize = 0;
    while end < bytes.len() && bytes[end] != WEIGHT_MARK
        invariant
            end <= bytes.len(),
            forall|j: int| 0 <= j < end ==> bytes@[j] != WEIGHT_MARK,
        decreases bytes.len() - end,
    {
        end += 1;
    }
    proof {
        encode_utf8_valid_utf8(value@);
        if end < bytes.len() {
            is_char_boundary_iff_not_is_continuation_byte(bytes@, end as int);
        } else {
            is_char_boundary_start_end_of_seq(bytes@);
        }
    }
    let (bare, _) = value.split_at(end);
    bare
}

} // verus!
