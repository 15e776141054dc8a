use de_env::{Error, ErrorCode, Extracted, Shape, Value};

fn is_unicode_error(e: &Error, bytes: &[u8]) -> bool {
    matches!(&e.code, ErrorCode::InvalidUnicode(b) if b.as_slice() == bytes)
}

#[test]
fn deserialize_bool() {
    let truthy = [
        "true", "TRUE", "t", "T", "yes", "YES", "y", "Y", "on", "ON", "1",
    ];

    for value in truthy {
        assert!(matches!(Value::from_text(value).deserialize_bool(true), Ok(true)));
    }

    let falsy = [
        "false", "FALSE", "f", "F", "no", "NO", "n", "N", "off", "OFF", "0",
    ];

    for value in falsy {
        assert!(matches!(Value::from_text(value).deserialize_bool(true), Ok(false)));
    }

    assert!(Value::from_text("gibberish").deserialize_bool(true).is_err());
}

#[test]
fn bool_without_extended_words() {
    assert!(matches!(Value::from_text("TRUE").deserialize_bool(false), Ok(true)));
    assert!(matches!(Value::from_text("False").deserialize_bool(false), Ok(false)));
    for value in ["t", "yes", "y", "on", "1", "f", "no", "n", "off", "0"] {
        let e = Value::from_text(value).deserialize_bool(false).unwrap_err();
        assert!(matches!(&e.code, ErrorCode::InvalidBool(b) if b.as_slice() == value.as_bytes()));
    }
}

#[test]
fn bool_mixed_case_and_other_words() {
    assert!(matches!(Value::from_text("YeS").deserialize_bool(true), Ok(true)));
    assert!(matches!(Value::from_text("oFf").deserialize_bool(true), Ok(false)));
    let e = Value::from_text("Maybe").deserialize_bool(true).unwrap_err();
    assert!(matches!(&e.code, ErrorCode::InvalidBool(b) if b.as_slice() == b"Maybe"));
    let e = Value::from_text("").deserialize_bool(true).unwrap_err();
    assert!(matches!(&e.code, ErrorCode::InvalidBool(b) if b.is_empty()));
}

#[test]
fn deserialize_enum() {
    let on = Value::from_text("ON").extract(Shape::Enum, true).unwrap();
    assert!(matches!(on, Extracted::Variant(s) if s == "ON"));

    let off = Value::from_text("OFF").extract(Shape::Enum, true).unwrap();
    assert!(matches!(off, Extracted::Variant(s) if s == "OFF"));

    for shape in [Shape::NewtypeVariant, Shape::StructVariant, Shape::TupleVariant] {
        let e = Value::from_text("NEW_TYPE_VARIANT").extract(shape, true).unwrap_err();
        assert!(matches!(e.code, ErrorCode::UnsupportedType(s) if s == shape));
    }

    let raw = Value::new(vec![0x47, 0xff]).extract(Shape::Enum, true).unwrap_err();
    assert!(is_unicode_error(&raw, &[0x47, 0xff]));
}

#[test]
fn deserialize_newtype_struct() {
    let v = Value::from_text("123");
    assert!(matches!(v.extract(Shape::NewtypeStruct, true), Ok(Extracted::Newtype)));
    assert!(matches!(v.deserialize_u8(), Ok(123)));
}

#[test]
fn integers_as_standard_parse() {
    assert!(matches!(Value::from_text("128").deserialize_u8(), Ok(128)));
    assert!(matches!(Value::from_text("+7").deserialize_u16(), Ok(7)));
    assert!(matches!(Value::from_text("-128").deserialize_i8(), Ok(-128)));
    assert!(matches!(Value::from_text("4294967295").deserialize_u32(), Ok(4294967295)));
    assert!(matches!(Value::from_text("-9").deserialize_i32(), Ok(-9)));
    assert!(matches!(Value::from_text("007").deserialize_i64(), Ok(7)));
    assert!(matches!(Value::from_text("18446744073709551615").deserialize_u64(), Ok(u64::MAX)));
    assert!(matches!(
        Value::from_text("340282366920938463463374607431768211455").deserialize_u128(),
        Ok(u128::MAX)
    ));
    assert!(matches!(
        Value::from_text("-170141183460469231731687303715884105728").deserialize_i128(),
        Ok(i128::MIN)
    ));
    assert!(matches!(Value::from_text("-32768").deserialize_i16(), Ok(i16::MIN)));
    for text in "12 7 0 255".split(' ') {
        let expected: u8 = text.parse().unwrap();
        assert_eq!(Value::from_text(text).deserialize_u8().unwrap(), expected);
    }
}

#[test]
fn integers_refused_as_standard_parse() {
    for text in ["256", "-1", "", "+", "-", " 1", "1 ", "1_0", "0x10", "+-1"] {
        let e = Value::from_text(text).deserialize_u8().unwrap_err();
        assert!(matches!(e.code, ErrorCode::InvalidInteger(_)), "{text:?}");
    }
    let e = Value::from_text("128").deserialize_i8().unwrap_err();
    assert!(matches!(e.code, ErrorCode::InvalidInteger(_)));
    let e = Value::from_text("-129").deserialize_i8().unwrap_err();
    assert!(matches!(e.code, ErrorCode::InvalidInteger(_)));
}

#[test]
fn malformed_value_is_unicode_error() {
    let bytes = [0x31u8, 0xc3, 0x28];
    let v = Value::new(bytes.to_vec());
    let shapes = [
        Shape::Bool, Shape::I8, Shape::I16, Shape::I32, Shape::I64, Shape::I128, Shape::U8,
        Shape::U16, Shape::U32, Shape::U64, Shape::U128, Shape::F32, Shape::F64, Shape::Char,
        Shape::Str, Shape::String, Shape::Enum,
    ];
    for shape in shapes {
        let e = v.extract(shape, true).unwrap_err();
        assert!(is_unicode_error(&e, &bytes), "{shape:?}");
    }
    assert!(is_unicode_error(&v.deserialize_bool(false).unwrap_err(), &bytes));
    assert!(is_unicode_error(&v.deserialize_str().unwrap_err(), &bytes));
}

#[test]
fn value_shapes() {
    let v = Value::from_text("héllo");
    assert!(matches!(v.extract(Shape::Str, true), Ok(Extracted::Text(s)) if s == "héllo"));
    assert!(matches!(v.extract(Shape::String, true), Ok(Extracted::Text(s)) if s == "héllo"));
    assert!(matches!(v.extract(Shape::Char, true), Ok(Extracted::Text(s)) if s == "héllo"));
    assert!(matches!(v.extract(Shape::F64, true), Ok(Extracted::Text(s)) if s == "héllo"));
    assert!(matches!(v.extract(Shape::Option, true), Ok(Extracted::Present)));
    assert!(matches!(Value::from_text("").extract(Shape::Option, true), Ok(Extracted::Present)));
    assert!(matches!(v.extract(Shape::IgnoredAny, true), Ok(Extracted::Ignored)));
    assert!(matches!(v.extract(Shape::Bool, false), Err(_)));
    assert!(matches!(Value::from_text("y").extract(Shape::Bool, true), Ok(Extracted::Bool(true))));
    assert!(matches!(Value::from_text("77").extract(Shape::U8, true), Ok(Extracted::U8(77))));
    assert!(matches!(Value::from_text("-77").extract(Shape::I64, true), Ok(Extracted::I64(-77))));
    let refused = [
        Shape::Bytes, Shape::ByteBuf, Shape::Unit, Shape::UnitStruct, Shape::Sequence,
        Shape::Tuple, Shape::TupleStruct, Shape::Mapping, Shape::Struct, Shape::Identifier,
        Shape::Any,
    ];
    for shape in refused {
        let e = v.extract(shape, true).unwrap_err();
        assert!(matches!(e.code, ErrorCode::UnsupportedType(s) if s == shape));
    }
}

#[test]
fn reading_twice_gives_the_same() {
    let v = Value::from_text("42");
    assert_eq!(v.deserialize_u32().unwrap(), v.deserialize_u32().unwrap());
    assert_eq!(v.deserialize_str().unwrap(), v.deserialize_str().unwrap());
    assert_eq!(v.as_bytes(), b"42");
    let w = Value::from_text("nope");
    assert_eq!(
        w.deserialize_bool(true).unwrap_err().message(),
        w.deserialize_bool(true).unwrap_err().message()
    );
}
