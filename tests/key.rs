use de_env::{ErrorCode, Extracted, Key, Shape};

#[test]
fn key_as_identifier() {
    let k = Key::from_text("TIMEOUT");
    for shape in [Shape::Str, Shape::String, Shape::Identifier] {
        assert!(matches!(k.extract(shape), Ok(Extracted::Text(s)) if s == "TIMEOUT"));
    }
    assert!(matches!(k.extract(Shape::NewtypeStruct), Ok(Extracted::Newtype)));
    assert_eq!(k.deserialize_str().unwrap(), "TIMEOUT");
    assert_eq!(k.as_bytes(), b"TIMEOUT");
}

#[test]
fn key_refuses_other_shapes() {
    let k = Key::from_text("1");
    for shape in [Shape::U8, Shape::Bool, Shape::Char, Shape::Option, Shape::Enum, Shape::Struct] {
        let e = k.extract(shape).unwrap_err();
        assert!(matches!(e.code, ErrorCode::UnsupportedType(s) if s == shape));
    }
}

#[test]
fn malformed_key_is_unicode_error() {
    let k = Key::new(vec![0x61, 0x80]);
    for shape in [Shape::Str, Shape::String, Shape::Identifier] {
        let e = k.extract(shape).unwrap_err();
        assert!(matches!(&e.code, ErrorCode::InvalidUnicode(b) if b.as_slice() == [0x61, 0x80]));
    }
}
