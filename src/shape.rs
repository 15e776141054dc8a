use vstd::prelude::*;

verus! {

/// A shape that a target type may ask a name, a value or the whole record
/// to take on.
#[derive(Clone, Copy, Debug, PartialEq, Eq, Structural)]
pub enum Shape {
    Bool,
    I8,
    I16,
    I32,
    I64,
    I128,
    U8,
    U16,
    U32,
    U64,
    U128,
    F32,
    F64,
    Char,
    Str,
    String,
    Bytes,
    ByteBuf,
    Option,
    Unit,
    UnitStruct,
    NewtypeStruct,
    Sequence,
    Tuple,
    TupleStruct,
    Mapping,
    Struct,
    Enum,
    Identifier,
    IgnoredAny,
    Any,
    NewtypeVariant,
    TupleVariant,
    StructVariant,
}

/// The name under which a shape is reported.
pub open spec fn shape_name(s: Shape) -> Seq<char> {
    match s {
        Shape::Bool => "bool"@,
        Shape::I8 => "i8"@,
        Shape::I16 => "i16"@,
        Shape::I32 => "i32"@,
        Shape::I64 => "i64"@,
        Shape::I128 => "i128"@,
        Shape::U8 => "u8"@,
        Shape::U16 => "u16"@,
        Shape::U32 => "u32"@,
        Shape::U64 => "u64"@,
        Shape::U128 => "u128"@,
        Shape::F32 => "f32"@,
        Shape::F64 => "f64"@,
        Shape::Char => "char"@,
        Shape::Str => "str"@,
        Shape::String => "string"@,
        Shape::Bytes => "bytes"@,
        Shape::ByteBuf => "byte_buf"@,
        Shape::Option => "option"@,
        Shape::Unit => "unit"@,
        Shape::UnitStruct => "unit_struct"@,
        Shape::NewtypeStruct => "newtype_struct"@,
        Shape::Sequence => "seq"@,
        Shape::Tuple => "tuple"@,
        Shape::TupleStruct => "tuple_struct"@,
        Shape::Mapping => "map"@,
        Shape::Struct => "struct"@,
        Shape::Enum => "enum"@,
        Shape::Identifier => "identifier"@,
        Shape::IgnoredAny => "ignored_any"@,
        Shape::Any => "any"@,
        Shape::NewtypeVariant => "newtype_variant"@,
        Shape::TupleVariant => "tuple_variant"@,
        Shape::StructVariant => "struct_variant"@,
    }
}

impl Shape {
    /// The name under which this shape is reported.
    pub fn name(&self) -> (r: &'static str)
        ensures
            r@ == shape_name(*self),
    {
        match self {
            Shape::Bool => "bool",
            Shape::I8 => "i8",
            Shape::I16 => "i16",
            Shape::I32 => "i32",
            Shape::I64 => "i64",
            Shape::I128 => "i128",
            Shape::U8 => "u8",
            Shape::U16 => "u16",
            Shape::U32 => "u32",
            Shape::U64 => "u64",
            Shape::U128 => "u128",
            Shape::F32 => "f32",
            Shape::F64 => "f64",
            Shape::Char => "char",
            Shape::Str => "str",
            Shape::String => "string",
            Shape::Bytes => "bytes",
            Shape::ByteBuf => "byte_buf",
            Shape::Option => "option",
            Shape::Unit => "unit",
            Shape::UnitStruct => "unit_struct",
            Shape::NewtypeStruct => "newtype_struct",
            Shape::Sequence => "seq",
            Shape::Tuple => "tuple",
            Shape::TupleStruct => "tuple_struct",
            Shape::Mapping => "map",
            Shape::Struct => "struct",
            Shape::Enum => "enum",
            Shape::Identifier => "identifier",
            Shape::IgnoredAny => "ignored_any",
            Shape::Any => "any",
            Shape::NewtypeVariant => "newtype_variant",
            Shape::TupleVariant => "tuple_variant",
            Shape::StructVariant => "struct_variant",
        }
    }
}

} // verus!
