use vstd::prelude::*;
use vstd::slice::slice_to_vec;
use vstd::utf8::encode_utf8;
use crate::error::Error;
use crate::shape::Shape;
use crate::text::from_utf8;
use crate::value::{text_result, value_text, Extracted};

verus! {

/// The shapes that a name can take on.
pub open spec fn key_accepts(s: Shape) -> bool {
    s == Shape::Str || s == Shape::String || s == Shape::Identifier || s == Shape::NewtypeStruct
}

/// How asking the bytes of a name for a shape may end.
pub open spec fn key_result(k: Seq<u8>, shape: Shape, r: Result<Extracted, Error>) -> bool {
    match shape {
        Shape::Str | Shape::String | Shape::Identifier => match r {
            Ok(Extracted::Text(s)) => value_text(k) == Some(s@),
            Ok(_) => false,
            Err(e) => value_text(k) is None && e.is_unicode_error(k),
        },
        Shape::NewtypeStruct => r matches Ok(Extracted::Newtype),
        _ => r matches Err(e) && e.is_unsupported(shape),
    }
}

/// The name of one pair: raw bytes, read only as the name of a field or of
/// an enum's variant.
pub struct Key {
    bytes: Vec<u8>,
}

impl View for Key {
    type V = Seq<u8>;

    closed spec fn view(&self) -> Seq<u8> {
        self.bytes@
    }
}

impl Key {
    /// A name of raw bytes.
    pub fn new(bytes: Vec<u8>) -> (r: Self)
        ensures
            r@ == bytes@,
    {
        Key { bytes }
    }

    /// A name of text.
    pub fn from_text(s: &str) -> (r: Self)
        ensures
            r@ == encode_utf8(s@),
    {
        Key { bytes: slice_to_vec(s.as_bytes()) }
    }

    /// The raw bytes.
    pub fn as_bytes(&self) -> (r: &[u8])
        ensures
            r@ == self@,
    {
        self.bytes.as_slice()
    }

    /// The name as text.
    pub fn deserialize_str(&self) -> (r: Result<String, Error>)
        ensures
            text_result(self@, r),
    {
        match from_utf8(self.bytes.as_slice()) {
            Some(s) => Ok(s.to_owned()),
            None => Err(Error::invalid_unicode(slice_to_vec(self.bytes.as_slice()))),
        }
    }

    /// Reads the name in the shape that the target type asks for, or refuses
    /// the shape. An identifier is read as text.
    pub fn extract(&self, shape: Shape) -> (r: Result<Extracted, Error>)
        ensures
            key_result(self@, shape, r),
            !key_accepts(shape) ==> (r matches Err(e) && e.is_unsupported(shape)),
    {
        match shape {
            Shape::Str | Shape::String | Shape::Identifier => match self.deserialize_str() {
                Ok(s) => Ok(Extracted::Text(s)),
                Err(e) => Err(e),
            },
            Shape::NewtypeStruct => Ok(Extracted::Newtype),
            _ => Err(Error::unsupported_type(shape)),
        }
    }
}

} // verus!
