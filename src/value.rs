use vstd::prelude::*;
use vstd::slice::slice_to_vec;
use vstd::utf8::{decode_utf8, encode_utf8, valid_utf8};
use crate::coerce::{bool_from_text, bool_token, case_folded};
use crate::error::Error;
use crate::number::{
    int_in, parse_i128, parse_i16, parse_i32, parse_i64, parse_i8, parse_u128, parse_u16, parse_u32,
    parse_u64, parse_u8,
};
use crate::shape::Shape;
use crate::text::from_utf8;

verus! {

/// The text that some bytes encode, where they are well-formed UTF-8.
pub open spec fn value_text(v: Seq<u8>) -> Option<Seq<char>> {
    if valid_utf8(v) {
        Some(decode_utf8(v))
    } else {
        None
    }
}

/// The boolean that some bytes write, whatever the case of the word.
pub open spec fn value_bool(v: Seq<u8>, truthy_falsy: bool) -> Option<bool> {
    if valid_utf8(v) {
        bool_token(case_folded(decode_utf8(v)), truthy_falsy)
    } else {
        None
    }
}

/// The integer in `lo..=hi` that some bytes write in decimal.
pub open spec fn value_int(v: Seq<u8>, signed: bool, lo: int, hi: int) -> Option<int> {
    if valid_utf8(v) {
        int_in(decode_utf8(v), signed, lo, hi)
    } else {
        None
    }
}

/// How reading some bytes as text may end.
pub open spec fn text_result(v: Seq<u8>, r: Result<String, Error>) -> bool {
    match r {
        Ok(s) => value_text(v) == Some(s@),
        Err(e) => value_text(v) is None && e.is_unicode_error(v),
    }
}

/// The error of bytes that write no boolean.
pub open spec fn bool_failure(v: Seq<u8>, truthy_falsy: bool, e: Error) -> bool {
    value_bool(v, truthy_falsy) is None && if valid_utf8(v) {
        e.is_bool_error(v)
    } else {
        e.is_unicode_error(v)
    }
}

/// The error of bytes that write no integer in `lo..=hi`.
pub open spec fn int_failure(v: Seq<u8>, signed: bool, lo: int, hi: int, e: Error) -> bool {
    value_int(v, signed, lo, hi) is None && if valid_utf8(v) {
        e.is_integer_error()
    } else {
        e.is_unicode_error(v)
    }
}

/// What a name or a value gave, for the shape that was asked of it.
#[derive(Debug)]
pub enum Extracted {
    Bool(bool),
    U8(u8),
    U16(u16),
    U32(u32),
    U64(u64),
    U128(u128),
    I8(i8),
    I16(i16),
    I32(i32),
    I64(i64),
    I128(i128),
    /// Text, for a string, a character or a floating-point number.
    Text(String),
    /// The name of an enum's variant.
    Variant(String),
    /// An optional value is present; it is read from the same source.
    Present,
    /// A wrapper of one field is read from the same source.
    Newtype,
    /// The value is skipped unread.
    Ignored,
}

/// The shapes that a value can take on.
pub open spec fn value_accepts(s: Shape) -> bool {
    match s {
        Shape::Bytes | Shape::ByteBuf | Shape::Unit | Shape::UnitStruct | Shape::Sequence
        | Shape::Tuple | Shape::TupleStruct | Shape::Mapping | Shape::Struct | Shape::Identifier
        | Shape::Any | Shape::NewtypeVariant | Shape::TupleVariant | Shape::StructVariant => false,
        _ => true,
    }
}

/// How asking some bytes for a shape may end.
pub open spec fn value_result(
    v: Seq<u8>,
    shape: Shape,
    truthy_falsy: bool,
    r: Result<Extracted, Error>,
) -> bool {
    match shape {
        Shape::Bool => match r {
            Ok(Extracted::Bool(b)) => value_bool(v, truthy_falsy) == Some(b),
            Ok(_) => false,
            Err(e) => bool_failure(v, truthy_falsy, e),
        },
        Shape::U8 => match r {
            Ok(Extracted::U8(x)) => value_int(v, false, u8::MIN as int, u8::MAX as int) == Some(
                x as int,
            ),
            Ok(_) => false,
            Err(e) => int_failure(v, false, u8::MIN as int, u8::MAX as int, e),
        },
        Shape::U16 => match r {
            Ok(Extracted::U16(x)) => value_int(v, false, u16::MIN as int, u16::MAX as int) == Some(
                x as int,
            ),
            Ok(_) => false,
            Err(e) => int_failure(v, false, u16::MIN as int, u16::MAX as int, e),
        },
        Shape::U32 => match r {
            Ok(Extracted::U32(x)) => value_int(v, false, u32::MIN as int, u32::MAX as int) == Some(
                x as int,
            ),
            Ok(_) => false,
            Err(e) => int_failure(v, false, u32::MIN as int, u32::MAX as int, e),
        },
        Shape::U64 => match r {
            Ok(Extracted::U64(x)) => value_int(v, false, u64::MIN as int, u64::MAX as int) == Some(
                x as int,
            ),
            Ok(_) => false,
            Err(e) => int_failure(v, false, u64::MIN as int, u64::MAX as int, e),
        },
        Shape::U128 => match r {
            Ok(Extracted::U128(x)) => value_int(v, false, u128::MIN as int, u128::MAX as int) == Some(
                x as int,
            ),
            Ok(_) => false,
            Err(e) => int_failure(v, false, u128::MIN as int, u128::MAX as int, e),
        },
        Shape::I8 => match r {
            Ok(Extracted::I8(x)) => value_int(v, true, i8::MIN as int, i8::MAX as int) == Some(
                x as int,
            ),
            Ok(_) => false,
            Err(e) => int_failure(v, true, i8::MIN as int, i8::MAX as int, e),
        },
        Shape::I16 => match r {
            Ok(Extracted::I16(x)) => value_int(v, true, i16::MIN as int, i16::MAX as int) == Some(
                x as int,
            ),
            Ok(_) => false,
            Err(e) => int_failure(v, true, i16::MIN as int, i16::MAX as int, e),
        },
        Shape::I32 => match r {
            Ok(Extracted::I32(x)) => value_int(v, true, i32::MIN as int, i32::MAX as int) == Some(
                x as int,
            ),
            Ok(_) => false,
            Err(e) => int_failure(v, true, i32::MIN as int, i32::MAX as int, e),
        },
        Shape::I64 => match r {
            Ok(Extracted::I64(x)) => value_int(v, true, i64::MIN as int, i64::MAX as int) == Some(
                x as int,
            ),
            Ok(_) => false,
            Err(e) => int_failure(v, true, i64::MIN as int, i64::MAX as int, e),
        },
        Shape::I128 => match r {
            Ok(Extracted::I128(x)) => value_int(v, true, i128::MIN as int, i128::MAX as int) == Some(
                x as int,
            ),
            Ok(_) => false,
            Err(e) => int_failure(v, true, i128::MIN as int, i128::MAX as int, e),
        },
        Shape::F32 | Shape::F64 | Shape::Char | Shape::Str | Shape::String => match r {
            Ok(Extracted::Text(s)) => value_text(v) == Some(s@),
            Ok(_) => false,
            Err(e) => value_text(v) is None && e.is_unicode_error(v),
        },
        Shape::Enum => match r {
            Ok(Extracted::Variant(s)) => value_text(v) == Some(s@),
            Ok(_) => false,
            Err(e) => value_text(v) is None && e.is_unicode_error(v),
        },
        Shape::Option => r matches Ok(Extracted::Present),
        Shape::NewtypeStruct => r matches Ok(Extracted::Newtype),
        Shape::IgnoredAny => r matches Ok(Extracted::Ignored),
        _ => r matches Err(e) && e.is_unsupported(shape),
    }
}

/// The value of one pair: raw bytes, read only in the shape that the target
/// type asks for.
pub struct Value {
    bytes: Vec<u8>,
}

impl View for Value {
    type V = Seq<u8>;

    closed spec fn view(&self) -> Seq<u8> {
        self.bytes@
    }
}

impl Value {
    /// A value of raw bytes.
    pub fn new(bytes: Vec<u8>) -> (r: Self)
        ensures
            r@ == bytes@,
    {
        Value { bytes }
    }

    /// A value of text.
    pub fn from_text(s: &str) -> (r: Self)
        ensures
            r@ == encode_utf8(s@),
    {
        Value { bytes: slice_to_vec(s.as_bytes()) }
    }

    /// The raw bytes.
    pub fn as_bytes(&self) -> (r: &[u8])
        ensures
            r@ == self@,
    {
        self.bytes.as_slice()
    }

    /// A copy of the raw bytes.
    fn copy_bytes(&self) -> (r: Vec<u8>)
        ensures
            r@ == self@,
    {
        slice_to_vec(self.bytes.as_slice())
    }

    /// The value as text.
    pub fn deserialize_str(&self) -> (r: Result<String, Error>)
        ensures
            text_result(self@, r),
    {
        match from_utf8(self.bytes.as_slice()) {
            Some(s) => Ok(s.to_owned()),
            None => Err(Error::invalid_unicode(self.copy_bytes())),
        }
    }

    /// The value as a boolean, read without regard to case. With
    /// `truthy_falsy` the words `t`, `yes`, `y`, `on`, `1` and `f`, `no`,
    /// `n`, `off`, `0` are taken besides `true` and `false`.
    pub fn deserialize_bool(&self, truthy_falsy: bool) -> (r: Result<bool, Error>)
        ensures
            r matches Ok(b) ==> value_bool(self@, truthy_falsy) == Some(b),
            r matches Err(e) ==> bool_failure(self@, truthy_falsy, e),
    {
        match from_utf8(self.bytes.as_slice()) {
            Some(s) => match bool_from_text(s, truthy_falsy) {
                Some(b) => Ok(b),
                None => Err(Error::invalid_bool(self.copy_bytes())),
            },
            None => Err(Error::invalid_unicode(self.copy_bytes())),
        }
    }

    /// The value as a `u8`, written in decimal.
    pub fn deserialize_u8(&self) -> (r: Result<u8, Error>)
        ensures
            r matches Ok(x) ==> value_int(self@, false, u8::MIN as int, u8::MAX as int) == Some(
                x as int,
            ),
            r matches Err(e) ==> int_failure(self@, false, u8::MIN as int, u8::MAX as int, e),
    {
        match from_utf8(self.bytes.as_slice()) {
            Some(s) => match parse_u8(s) {
                Ok(x) => Ok(x),
                Err(e) => Err(Error::invalid_integer(e)),
            },
            None => Err(Error::invalid_unicode(self.copy_bytes())),
        }
    }

    /// The value as a `u16`, written in decimal.
    pub fn deserialize_u16(&self) -> (r: Result<u16, Error>)
        ensures
            r matches Ok(x) ==> value_int(self@, false, u16::MIN as int, u16::MAX as int) == Some(
                x as int,
            ),
            r matches Err(e) ==> int_failure(self@, false, u16::MIN as int, u16::MAX as int, e),
    {
        match from_utf8(self.bytes.as_slice()) {
            Some(s) => match parse_u16(s) {
                Ok(x) => Ok(x),
                Err(e) => Err(Error::invalid_integer(e)),
            },
            None => Err(Error::invalid_unicode(self.copy_bytes())),
        }
    }

    /// The value as a `u32`, written in decimal.
    pub fn deserialize_u32(&self) -> (r: Result<u32, Error>)
        ensures
            r matches Ok(x) ==> value_int(self@, false, u32::MIN as int, u32::MAX as int) == Some(
                x as int,
            ),
            r matches Err(e) ==> int_failure(self@, false, u32::MIN as int, u32::MAX as int, e),
    {
        match from_utf8(self.bytes.as_slice()) {
            Some(s) => match parse_u32(s) {
                Ok(x) => Ok(x),
                Err(e) => Err(Error::invalid_integer(e)),
            },
            None => Err(Error::invalid_unicode(self.copy_bytes())),
        }
    }

    /// The value as a `u64`, written in decimal.
    pub fn deserialize_u64(&self) -> (r: Result<u64, Error>)
        ensures
            r matches Ok(x) ==> value_int(self@, false, u64::MIN as int, u64::MAX as int) == Some(
                x as int,
            ),
            r matches Err(e) ==> int_failure(self@, false, u64::MIN as int, u64::MAX as int, e),
    {
        match from_utf8(self.bytes.as_slice()) {
            Some(s) => match parse_u64(s) {
                Ok(x) => Ok(x),
                Err(e) => Err(Error::invalid_integer(e)),
            },
            None => Err(Error::invalid_unicode(self.copy_bytes())),
        }
    }

    /// The value as a `u128`, written in decimal.
    pub fn deserialize_u128(&self) -> (r: Result<u128, Error>)
        ensures
            r matches Ok(x) ==> value_int(self@, false, u128::MIN as int, u128::MAX as int) == Some(
                x as int,
            ),
            r matches Err(e) ==> int_failure(self@, false, u128::MIN as int, u128::MAX as int, e),
    {
        match from_utf8(self.bytes.as_slice()) {
            Some(s) => match parse_u128(s) {
                Ok(x) => Ok(x),
                Err(e) => Err(Error::invalid_integer(e)),
            },
            None => Err(Error::invalid_unicode(self.copy_bytes())),
        }
    }

    /// The value as a `i8`, written in decimal.
    pub fn deserialize_i8(&self) -> (r: Result<i8, Error>)
        ensures
            r matches Ok(x) ==> value_int(self@, true, i8::MIN as int, i8::MAX as int) == Some(
                x as int,
            ),
            r matches Err(e) ==> int_failure(self@, true, i8::MIN as int, i8::MAX as int, e),
    {
        match from_utf8(self.bytes.as_slice()) {
            Some(s) => match parse_i8(s) {
                Ok(x) => Ok(x),
                Err(e) => Err(Error::invalid_integer(e)),
            },
            None => Err(Error::invalid_unicode(self.copy_bytes())),
        }
    }

    /// The value as a `i16`, written in decimal.
    pub fn deserialize_i16(&self) -> (r: Result<i16, Error>)
        ensures
            r matches Ok(x) ==> value_int(self@, true, i16::MIN as int, i16::MAX as int) == Some(
                x as int,
            ),
            r matches Err(e) ==> int_failure(self@, true, i16::MIN as int, i16::MAX as int, e),
    {
        match from_utf8(self.bytes.as_slice()) {
            Some(s) => match parse_i16(s) {
                Ok(x) => Ok(x),
                Err(e) => Err(Error::invalid_integer(e)),
            },
            None => Err(Error::invalid_unicode(self.copy_bytes())),
        }
    }

    /// The value as a `i32`, written in decimal.
    pub fn deserialize_i32(&self) -> (r: Result<i32, Error>)
        ensures
            r matches Ok(x) ==> value_int(self@, true, i32::MIN as int, i32::MAX as int) == Some(
                x as int,
            ),
            r matches Err(e) ==> int_failure(self@, true, i32::MIN as int, i32::MAX as int, e),
    {
        match from_utf8(self.bytes.as_slice()) {
            Some(s) => match parse_i32(s) {
                Ok(x) => Ok(x),
                Err(e) => Err(Error::invalid_integer(e)),
            },
            None => Err(Error::invalid_unicode(self.copy_bytes())),
        }
    }

    /// The value as a `i64`, written in decimal.
    pub fn deserialize_i64(&self) -> (r: Result<i64, Error>)
        ensures
            r matches Ok(x) ==> value_int(self@, true, i64::MIN as int, i64::MAX as int) == Some(
                x as int,
            ),
            r matches Err(e) ==> int_failure(self@, true, i64::MIN as int, i64::MAX as int, e),
    {
        match from_utf8(self.bytes.as_slice()) {
            Some(s) => match parse_i64(s) {
                Ok(x) => Ok(x),
                Err(e) => Err(Error::invalid_integer(e)),
            },
            None => Err(Error::invalid_unicode(self.copy_bytes())),
        }
    }

    /// The value as a `i128`, written in decimal.
    pub fn deserialize_i128(&self) -> (r: Result<i128, Error>)
        ensures
            r matches Ok(x) ==> value_int(self@, true, i128::MIN as int, i128::MAX as int) == Some(
                x as int,
            ),
            r matches Err(e) ==> int_failure(self@, true, i128::MIN as int, i128::MAX as int, e),
    {
        match from_utf8(self.bytes.as_slice()) {
            Some(s) => match parse_i128(s) {
                Ok(x) => Ok(x),
                Err(e) => Err(Error::invalid_integer(e)),
            },
            None => Err(Error::invalid_unicode(self.copy_bytes())),
        }
    }

    /// Reads the value in the shape that the target type asks for, or
    /// refuses the shape.
    pub fn extract(&self, shape: Shape, truthy_falsy: bool) -> (r: Result<Extracted, Error>)
        ensures
            value_result(self@, shape, truthy_falsy, r),
            !value_accepts(shape) ==> (r matches Err(e) && e.is_unsupported(shape)),
    {
        match shape {
            Shape::Bool => match self.deserialize_bool(truthy_falsy) {
                Ok(b) => Ok(Extracted::Bool(b)),
                Err(e) => Err(e),
            },
            Shape::U8 => match self.deserialize_u8() {
                Ok(x) => Ok(Extracted::U8(x)),
                Err(e) => Err(e),
            },
            Shape::U16 => match self.deserialize_u16() {
                Ok(x) => Ok(Extracted::U16(x)),
                Err(e) => Err(e),
            },
            Shape::U32 => match self.deserialize_u32() {
                Ok(x) => Ok(Extracted::U32(x)),
                Err(e) => Err(e),
            },
            Shape::U64 => match self.deserialize_u64() {
                Ok(x) => Ok(Extracted::U64(x)),
                Err(e) => Err(e),
            },
            Shape::U128 => match self.deserialize_u128() {
                Ok(x) => Ok(Extracted::U128(x)),
                Err(e) => Err(e),
            },
            Shape::I8 => match self.deserialize_i8() {
                Ok(x) => Ok(Extracted::I8(x)),
                Err(e) => Err(e),
            },
            Shape::I16 => match self.deserialize_i16() {
                Ok(x) => Ok(Extracted::I16(x)),
                Err(e) => Err(e),
            },
            Shape::I32 => match self.deserialize_i32() {
                Ok(x) => Ok(Extracted::I32(x)),
                Err(e) => Err(e),
            },
            Shape::I64 => match self.deserialize_i64() {
                Ok(x) => Ok(Extracted::I64(x)),
                Err(e) => Err(e),
            },
            Shape::I128 => match self.deserialize_i128() {
                Ok(x) => Ok(Extracted::I128(x)),
                Err(e) => Err(e),
            },
            Shape::F32 | Shape::F64 | Shape::Char | Shape::Str | Shape::String => {
                match self.deserialize_str() {
                    Ok(s) => Ok(Extracted::Text(s)),
                    Err(e) => Err(e),
                }
            },
            Shape::Enum => match self.deserialize_str() {
                Ok(s) => Ok(Extracted::Variant(s)),
                Err(e) => Err(e),
            },
            Shape::Option => Ok(Extracted::Present),
            Shape::NewtypeStruct => Ok(Extracted::Newtype),
            Shape::IgnoredAny => Ok(Extracted::Ignored),
            _ => Err(Error::unsupported_type(shape)),
        }
    }
}

} // verus!
