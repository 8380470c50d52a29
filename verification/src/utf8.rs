//! UTF-8 validation from std, stated over vstd's UTF-8 model.
use std::str::Utf8Error;
use std::string::FromUtf8Error;
use vstd::prelude::*;
use vstd::string::StringSliceAdditionalSpecFns;
use vstd::utf8::*;

verus! {

#[verifier::external_type_specification]
#[verifier::external_body]
pub struct ExUtf8Error(std::str::Utf8Error);

#[verifier::external_type_specification]
#[verifier::external_body]
pub struct ExFromUtf8Error(std::string::FromUtf8Error);

/// `std::str::from_utf8`: succeeds exactly on valid UTF-8, and the string
/// it gives back has the same bytes.
#[verifier::external_body]
pub(crate) fn str_from_utf8(v: &[u8]) -> (r: Result<&str, Utf8Error>)
    ensures
        r is Ok <==> valid_utf8(v@),
        r matches Ok(s) ==> s.spec_bytes() == v@,
{
    std::str::from_utf8(v)
}

/// `String::from_utf8`: succeeds exactly on valid UTF-8, and the string
/// holds the characters that the bytes encode.
#[verifier::external_body]
pub(crate) fn string_from_utf8(v: Vec<u8>) -> (r: Result<String, FromUtf8Error>)
    ensures
        r is Ok <==> valid_utf8(v@),
        r matches Ok(s) ==> s@ == decode_utf8(v@),
{
    String::from_utf8(v)
}

/// `FromUtf8Error::utf8_error`: the underlying `Utf8Error`.
#[verifier::external_body]
pub(crate) fn from_utf8_error_cause(e: &FromUtf8Error) -> Utf8Error {
    e.utf8_error()
}

/// In valid UTF-8, the position right after an ASCII byte starts a character.
pub proof fn lemma_boundary_after_ascii(b: Seq<u8>, i: int)
    requires
        valid_utf8(b),
        0 < i <= b.len(),
        b[i - 1] <= 0x7f,
    ensures
        is_char_boundary(b, i),
    decreases b.len(),
{
    let l = length_of_first_scalar(b);
    if i - 1 >= l {
        let p = pop_first_scalar(b);
        assert(p[i - l - 1] == b[i - 1]);
        lemma_boundary_after_ascii(p, i - l);
    } else {
        reveal_with_fuel(is_char_boundary, 2);
    }
}

/// In valid UTF-8, an ASCII byte starts a character.
pub proof fn lemma_boundary_at_ascii(b: Seq<u8>, i: int)
    requires
        valid_utf8(b),
        0 <= i < b.len(),
        b[i] <= 0x7f,
    ensures
        is_char_boundary(b, i),
{
    is_char_boundary_iff_not_is_continuation_byte(b, i);
}

/// The bytes between two character boundaries of valid UTF-8 are valid UTF-8.
pub proof fn lemma_valid_between_boundaries(b: Seq<u8>, start: int, end: int)
    requires
        valid_utf8(b),
        0 <= start <= end <= b.len(),
        is_char_boundary(b, start),
        is_char_boundary(b, end),
    ensures
        valid_utf8(b.subrange(start, end)),
{
    valid_utf8_split(b, start);
    let q = b.subrange(start, b.len() as int);
    let k = end - start;
    if k == q.len() {
        is_char_boundary_start_end_of_seq(q);
    } else {
        is_char_boundary_iff_not_is_continuation_byte(b, end);
        assert(q[k] == b[end]);
        is_char_boundary_iff_not_is_continuation_byte(q, k);
    }
    valid_utf8_split(q, k);
    assert(q.subrange(0, k) =~= b.subrange(start, end));
}

} // verus!
