use vstd::prelude::*;
use vstd::utf8::{decode_utf8, valid_utf8};
use std::num::{ParseFloatError, ParseIntError};
use crate::shape::{Shape, shape_name};

verus! {

/// `std::num::ParseIntError`, kept as the standard parser's account of why a
/// value is no integer; nothing is read from inside it.
#[verifier::external_type_specification]
#[verifier::external_body]
pub struct ExParseIntError(ParseIntError);

/// `std::num::ParseFloatError`, kept as the standard parser's account of why
/// a value is no floating-point number; nothing is read from inside it.
#[verifier::external_type_specification]
#[verifier::external_body]
pub struct ExParseFloatError(ParseFloatError);

/// What went wrong.
#[derive(Debug)]
pub enum ErrorCode {
    /// The target type rejected a value with this message.
    Message(String),
    /// The target type asked for a shape that is never supported.
    UnsupportedType(Shape),
    /// A name or value had to be read as text and is not well-formed UTF-8.
    InvalidUnicode(Vec<u8>),
    /// A value is not an integer of the asked type.
    InvalidInteger(ParseIntError),
    /// A value is not a floating-point number.
    InvalidFloat(ParseFloatError),
    /// A value is not one of the boolean words.
    InvalidBool(Vec<u8>),
}

/// An error that may arise when deserializing.
#[derive(Debug)]
pub struct Error {
    /// What went wrong.
    pub code: ErrorCode,
}

/// What `String::from_utf8_lossy` makes of some bytes.
pub uninterp spec fn lossy_text(b: Seq<u8>) -> Seq<char>;

/// Relies on `String::from_utf8_lossy`: each malformed sequence becomes
/// U+FFFD, and well-formed UTF-8 is decoded as it stands.
#[verifier::external_body]
fn text_lossy(b: &[u8]) -> (r: String)
    ensures
        r@ == lossy_text(b@),
        valid_utf8(b@) ==> r@ == decode_utf8(b@),
{
    String::from_utf8_lossy(b).into_owned()
}

/// Relies on `ParseIntError`'s `Display`: the standard parser's description
/// of the failure.
#[verifier::external_body]
fn int_error_text(e: &ParseIntError) -> (r: String) {
    e.to_string()
}

/// Relies on `ParseFloatError`'s `Display`: the standard parser's
/// description of the failure.
#[verifier::external_body]
fn float_error_text(e: &ParseFloatError) -> (r: String) {
    e.to_string()
}

/// The message of an unsupported shape.
pub open spec fn unsupported_message(s: Shape) -> Seq<char> {
    "`"@ + shape_name(s) + "` cannot be deserialized from environment variables"@
}

/// The message of bytes that are not text.
pub open spec fn unicode_message(b: Seq<u8>) -> Seq<char> {
    "`"@ + lossy_text(b) + "` could not be deserialized and parsed as it is not valid unicode"@
}

/// The message of a value that is not a boolean.
pub open spec fn bool_message(b: Seq<u8>) -> Seq<char> {
    "`"@ + lossy_text(b) + "` is not a boolean"@
}

impl Error {
    /// A name or value that is not text.
    pub open spec fn is_unicode_error(&self, v: Seq<u8>) -> bool {
        self.code matches ErrorCode::InvalidUnicode(b) && b@ == v
    }

    /// A value that is no boolean.
    pub open spec fn is_bool_error(&self, v: Seq<u8>) -> bool {
        self.code matches ErrorCode::InvalidBool(b) && b@ == v
    }

    /// A value that is no integer of the asked type.
    pub open spec fn is_integer_error(&self) -> bool {
        self.code is InvalidInteger
    }

    /// A shape that was refused.
    pub open spec fn is_unsupported(&self, s: Shape) -> bool {
        self.code == ErrorCode::UnsupportedType(s)
    }

    /// An error of the given kind.
    pub fn new(code: ErrorCode) -> (r: Self)
        ensures
            r.code == code,
    {
        Error { code }
    }

    /// An error raised by the target type's own checks.
    pub fn custom(msg: String) -> (r: Self)
        ensures
            r.code matches ErrorCode::Message(m) && m@ == msg@,
    {
        Self::new(ErrorCode::Message(msg))
    }

    /// A shape that is never supported.
    pub fn unsupported_type(shape: Shape) -> (r: Self)
        ensures
            r.code == ErrorCode::UnsupportedType(shape),
    {
        Self::new(ErrorCode::UnsupportedType(shape))
    }

    /// Bytes that had to be text and are not.
    pub fn invalid_unicode(value: Vec<u8>) -> (r: Self)
        ensures
            r.code matches ErrorCode::InvalidUnicode(b) && b@ == value@,
    {
        Self::new(ErrorCode::InvalidUnicode(value))
    }

    /// A value that is no boolean.
    pub fn invalid_bool(value: Vec<u8>) -> (r: Self)
        ensures
            r.code matches ErrorCode::InvalidBool(b) && b@ == value@,
    {
        Self::new(ErrorCode::InvalidBool(value))
    }

    /// A value that is no integer of the asked type.
    pub fn invalid_integer(e: ParseIntError) -> (r: Self)
        ensures
            r.code matches ErrorCode::InvalidInteger(x) && x == e,
    {
        Self::new(ErrorCode::InvalidInteger(e))
    }

    /// A value that is no floating-point number.
    pub fn invalid_float(e: ParseFloatError) -> (r: Self)
        ensures
            r.code matches ErrorCode::InvalidFloat(x) && x == e,
    {
        Self::new(ErrorCode::InvalidFloat(e))
    }

    /// A readable account of the error. A number that failed to parse is
    /// described by the standard parser.
    pub fn message(&self) -> (r: String)
        ensures
            self.code matches ErrorCode::Message(m) ==> r@ == m@,
            self.code matches ErrorCode::UnsupportedType(s) ==> r@ == unsupported_message(s),
            self.code matches ErrorCode::InvalidUnicode(b) ==> r@ == unicode_message(b@),
            self.code matches ErrorCode::InvalidBool(b) ==> r@ == bool_message(b@),
    {
        match &self.code {
            ErrorCode::Message(m) => m.clone(),
            ErrorCode::UnsupportedType(s) => {
                let mut r = String::from_str("`");
                r.append(s.name());
                r.append("` cannot be deserialized from environment variables");
                r
            },
            ErrorCode::InvalidUnicode(b) => {
                let mut r = String::from_str("`");
                r.append(text_lossy(b.as_slice()).as_str());
                r.append("` could not be deserialized and parsed as it is not valid unicode");
                r
            },
            ErrorCode::InvalidInteger(e) => int_error_text(e),
            ErrorCode::InvalidFloat(e) => float_error_text(e),
            ErrorCode::InvalidBool(b) => {
                let mut r = String::from_str("`");
                r.append(text_lossy(b.as_slice()).as_str());
                r.append("` is not a boolean");
                r
            },
        }
    }
}

} // verus!
