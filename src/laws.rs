use vstd::prelude::*;
use vstd::utf8::{
    encode_utf8, encode_utf8_decode_utf8, encode_utf8_valid_utf8, is_ascii_chars,
    valid_utf8,
};
use crate::coerce::{ascii_lower, case_folded, falsy, truthy};
use crate::error::{Error, ErrorCode};
use crate::key::key_result;
use crate::number::int_in;
use crate::shape::Shape;
use crate::value::{value_bool, value_int, value_result, value_text, Extracted};

verus! {

/// A name or value made from text reads back as that same text.
pub proof fn text_reads_back(s: Seq<char>)
    ensures
        value_text(encode_utf8(s)) == Some(s),
{
    encode_utf8_valid_utf8(s);
    encode_utf8_decode_utf8(s);
}

/// A value made from text reads, in each integer type, as the integer that
/// the type's standard parser makes of that text, and fails where the parser
/// fails.
pub proof fn numbers_read_as_parsed(s: Seq<char>, signed: bool, lo: int, hi: int)
    ensures
        value_int(encode_utf8(s), signed, lo, hi) == int_in(s, signed, lo, hi),
{
    text_reads_back(s);
}

/// The shapes in which a value is read at all, rather than passed on or
/// skipped.
pub open spec fn value_accepts_content(s: Shape) -> bool {
    match s {
        Shape::Bool | Shape::I8 | Shape::I16 | Shape::I32 | Shape::I64 | Shape::I128 | Shape::U8
        | Shape::U16 | Shape::U32 | Shape::U64 | Shape::U128 | Shape::F32 | Shape::F64
        | Shape::Char | Shape::Str | Shape::String | Shape::Enum => true,
        _ => false,
    }
}

/// Bytes that are not well-formed UTF-8 fail, in every shape in which a
/// value is read, with the unicode error that holds those bytes, and with
/// no other error.
pub proof fn malformed_value_fails_as_unicode(
    v: Seq<u8>,
    shape: Shape,
    truthy_falsy: bool,
    r: Result<Extracted, Error>,
)
    requires
        !valid_utf8(v),
        value_accepts_content(shape),
        value_result(v, shape, truthy_falsy, r),
    ensures
        r matches Err(e) && e.is_unicode_error(v),
{
}

/// A name that is not well-formed UTF-8 fails, in every shape in which it is
/// read as text, with the unicode error that holds its bytes.
pub proof fn malformed_key_fails_as_unicode(k: Seq<u8>, shape: Shape, r: Result<Extracted, Error>)
    requires
        !valid_utf8(k),
        shape == Shape::Str || shape == Shape::String || shape == Shape::Identifier,
        key_result(k, shape, r),
    ensures
        r matches Err(e) && e.is_unicode_error(k),
{
}

/// An ASCII word is read as a boolean whatever its case: a truthy word gives
/// `true`, a falsy word gives `false`, and any other word gives none. Without
/// the extended words only `true` and `false` are read.
pub proof fn bool_words_in_any_case(s: Seq<char>, truthy_falsy: bool)
    requires
        is_ascii_chars(s),
    ensures
        truthy(ascii_lower(s), truthy_falsy) ==> value_bool(encode_utf8(s), truthy_falsy) == Some(
            true,
        ),
        falsy(ascii_lower(s), truthy_falsy) ==> value_bool(encode_utf8(s), truthy_falsy) == Some(
            false,
        ),
        !truthy(ascii_lower(s), truthy_falsy) && !falsy(ascii_lower(s), truthy_falsy) ==> value_bool(
            encode_utf8(s),
            truthy_falsy,
        ) is None,
        value_bool(encode_utf8(s), false) is Some <==> (ascii_lower(s) == "true"@ || ascii_lower(s)
            == "false"@),
{
    text_reads_back(s);
    reveal_strlit("true");
    reveal_strlit("t");
    reveal_strlit("yes");
    reveal_strlit("y");
    reveal_strlit("on");
    reveal_strlit("1");
    reveal_strlit("false");
    reveal_strlit("f");
    reveal_strlit("no");
    reveal_strlit("n");
    reveal_strlit("off");
    reveal_strlit("0");
    let t = ascii_lower(s);
    assert(case_folded(s) == t);
    if falsy(t, truthy_falsy) {
        assert(!truthy(t, truthy_falsy)) by {
            if t.len() == 1 {
                assert(t[0] != 't' && t[0] != 'y' && t[0] != '1');
            } else if t.len() == 2 {
                assert(t[0] == 'n' || t[0] == 'o');
            } else if t.len() == 3 {
                assert(t[0] == 'o');
            }
        }
    }
}

/// Two outcomes alike in all that they carry. Two failures of the
/// standard number parser count as alike.
pub open spec fn same_outcome(a: Result<Extracted, Error>, b: Result<Extracted, Error>) -> bool {
    match (a, b) {
        (Ok(x), Ok(y)) => match (x, y) {
            (Extracted::Bool(p), Extracted::Bool(q)) => p == q,
            (Extracted::I8(p), Extracted::I8(q)) => p == q,
            (Extracted::I16(p), Extracted::I16(q)) => p == q,
            (Extracted::I32(p), Extracted::I32(q)) => p == q,
            (Extracted::I64(p), Extracted::I64(q)) => p == q,
            (Extracted::I128(p), Extracted::I128(q)) => p == q,
            (Extracted::U8(p), Extracted::U8(q)) => p == q,
            (Extracted::U16(p), Extracted::U16(q)) => p == q,
            (Extracted::U32(p), Extracted::U32(q)) => p == q,
            (Extracted::U64(p), Extracted::U64(q)) => p == q,
            (Extracted::U128(p), Extracted::U128(q)) => p == q,
            (Extracted::Text(p), Extracted::Text(q)) => p@ == q@,
            (Extracted::Variant(p), Extracted::Variant(q)) => p@ == q@,
            (Extracted::Present, Extracted::Present) => true,
            (Extracted::Newtype, Extracted::Newtype) => true,
            (Extracted::Ignored, Extracted::Ignored) => true,
            _ => false,
        },
        (Err(x), Err(y)) => match (x.code, y.code) {
            (ErrorCode::Message(p), ErrorCode::Message(q)) => p@ == q@,
            (ErrorCode::UnsupportedType(p), ErrorCode::UnsupportedType(q)) => p == q,
            (ErrorCode::InvalidUnicode(p), ErrorCode::InvalidUnicode(q)) => p@ == q@,
            (ErrorCode::InvalidInteger(_), ErrorCode::InvalidInteger(_)) => true,
            (ErrorCode::InvalidFloat(_), ErrorCode::InvalidFloat(_)) => true,
            (ErrorCode::InvalidBool(p), ErrorCode::InvalidBool(q)) => p@ == q@,
            _ => false,
        },
        _ => false,
    }
}

/// Reading the same value in the same shape twice gives alike outcomes: no
/// state outside the bytes and the options bears on the result.
pub proof fn value_reading_is_repeatable(
    v: Seq<u8>,
    shape: Shape,
    truthy_falsy: bool,
    r1: Result<Extracted, Error>,
    r2: Result<Extracted, Error>,
)
    requires
        value_result(v, shape, truthy_falsy, r1),
        value_result(v, shape, truthy_falsy, r2),
    ensures
        same_outcome(r1, r2),
{
}

/// Reading the same name in the same shape twice gives alike outcomes.
pub proof fn key_reading_is_repeatable(
    k: Seq<u8>,
    shape: Shape,
    r1: Result<Extracted, Error>,
    r2: Result<Extracted, Error>,
)
    requires
        key_result(k, shape, r1),
        key_result(k, shape, r2),
    ensures
        same_outcome(r1, r2),
{
}

} // verus!
