use de_env::{strip_prefixed, EnvDeserializer, ErrorCode, Extracted, Key, Shape, Value};

fn pairs(items: &[(&str, &str)]) -> Vec<(Key, Value)> {
    items.iter().map(|(k, v)| (Key::from_text(k), Value::from_text(v))).collect()
}

fn env(items: &[(&str, &str)]) -> Vec<(Vec<u8>, Vec<u8>)> {
    items.iter().map(|(k, v)| (k.as_bytes().to_vec(), v.as_bytes().to_vec())).collect()
}

/// Walks every pair, giving each name as text and each value's raw bytes.
fn walk(d: &mut EnvDeserializer) -> Vec<(String, Vec<u8>)> {
    let mut out = Vec::new();
    while let Some(k) = d.next_key() {
        let name = k.deserialize_str().unwrap();
        let value = d.next_value().unwrap();
        out.push((name, value.as_bytes().to_vec()));
    }
    out
}

#[test]
fn it_works() {
    let mut d = EnvDeserializer::from_iter(pairs(&[("A", "lorem ipsum"), ("B", "128")]));
    assert!(d.accept(Shape::Struct).is_ok());
    let a = d.next_key().unwrap();
    assert_eq!(a.extract(Shape::Identifier).ok().map(|x| matches!(x, Extracted::Text(s) if s == "A")), Some(true));
    assert_eq!(d.next_value().unwrap().deserialize_str().unwrap(), "lorem ipsum");
    let b = d.next_key().unwrap();
    assert_eq!(b.deserialize_str().unwrap(), "B");
    assert_eq!(d.next_value().unwrap().deserialize_u8().unwrap(), 128);
    assert!(d.next_key().is_none());
}

#[test]
fn option() {
    let mut d = EnvDeserializer::from_iter(pairs(&[("a", "12")]));
    let a = d.next_key().unwrap();
    assert_eq!(a.deserialize_str().unwrap(), "a");
    let v = d.next_value().unwrap();
    assert!(matches!(v.extract(Shape::Option, true), Ok(Extracted::Present)));
    assert_eq!(v.deserialize_u8().unwrap(), 12);
    // `b` never comes: the record leaves it absent.
    assert!(d.next_key().is_none());
    assert!(d.next_value().is_none());
}

#[test]
fn unknown_fields_are_handed_out() {
    let mut d = EnvDeserializer::from_iter(pairs(&[("a", "12"), ("b", "34"), ("c", "56")]));
    let seen = walk(&mut d);
    let names: Vec<&str> = seen.iter().map(|(n, _)| n.as_str()).collect();
    assert_eq!(names, ["a", "b", "c"]);
    assert_eq!(seen[2].1, b"56");
}

#[test]
fn value_waits_for_its_key() {
    let mut d = EnvDeserializer::from_iter(pairs(&[("x", "1"), ("y", "2")]));
    assert!(d.next_value().is_none());
    assert!(d.next_key().is_some());
    assert!(d.next_key().is_some());
    assert_eq!(d.next_value().unwrap().as_bytes(), b"2");
    assert!(d.next_value().is_none());
    assert!(d.next_key().is_none());
}

#[test]
fn empty_walk() {
    let mut d = EnvDeserializer::from_iter(Vec::new());
    assert!(d.next_key().is_none());
    assert!(d.next_value().is_none());
}

#[test]
fn record_shapes() {
    let d = EnvDeserializer::from_iter(Vec::new());
    for shape in [Shape::Struct, Shape::Mapping, Shape::Enum] {
        assert!(d.accept(shape).is_ok());
    }
    for shape in [Shape::Bool, Shape::U8, Shape::Str, Shape::Sequence, Shape::Tuple, Shape::NewtypeStruct, Shape::Option] {
        let e = d.accept(shape).unwrap_err();
        assert!(matches!(e.code, ErrorCode::UnsupportedType(s) if s == shape));
    }
}

#[test]
fn prefixed() {
    let entries = env(&[
        ("a", "wrong a"),
        ("b", "wrong b"),
        ("prefix_a", "lorem ipsum"),
        ("prefix_b", "128"),
    ]);
    let mut d = EnvDeserializer::from_iter(strip_prefixed(&entries, "prefix_"));
    let seen = walk(&mut d);
    assert_eq!(seen.len(), 2);
    assert_eq!(seen[0].0, "a");
    assert_eq!(Value::new(seen[0].1.clone()).deserialize_str().unwrap(), "lorem ipsum");
    assert_eq!(seen[1].0, "b");
    assert_eq!(Value::new(seen[1].1.clone()).deserialize_u8().unwrap(), 128);
}

#[test]
fn prefix_skips_names_that_are_not_text() {
    let mut entries = env(&[("prefix_x", "1"), ("prefix", "2"), ("xprefix_y", "3")]);
    entries.push((vec![b'p', b'r', b'e', b'f', b'i', b'x', b'_', 0xff], b"4".to_vec()));
    entries.push((b"prefix_".to_vec(), vec![0xfe]));
    let mut d = EnvDeserializer::from_iter(strip_prefixed(&entries, "prefix_"));
    let seen = walk(&mut d);
    assert_eq!(seen, vec![("x".to_string(), b"1".to_vec()), (String::new(), vec![0xfe])]);
}

#[test]
fn converting_twice_gives_the_same() {
    let items = [("a", "12"), ("b", "x")];
    let first = walk(&mut EnvDeserializer::from_iter(pairs(&items)));
    let second = walk(&mut EnvDeserializer::from_iter(pairs(&items)));
    assert_eq!(first, second);
}

#[test]
#[should_panic]
fn deny_unknown_fields() {
    let d = EnvDeserializer::from_iter(pairs(&[("a", "12"), ("b", "34"), ("c", "56")]));
    d.check_fields(&["a", "b"]).unwrap();
}

#[test]
fn unknown_field_check() {
    let d = EnvDeserializer::from_iter(pairs(&[("a", "12"), ("b", "34"), ("c", "56"), ("d", "7")]));
    let e = d.check_fields(&["a", "b"]).unwrap_err();
    assert_eq!(e.message(), "unknown field `c`");
    assert!(d.check_fields(&["d", "c", "b", "a"]).is_ok());
    let raw = EnvDeserializer::from_iter(vec![(Key::new(vec![0xff]), Value::from_text("1"))]);
    let e = raw.check_fields(&["a"]).unwrap_err();
    assert!(matches!(&e.code, ErrorCode::InvalidUnicode(b) if b.as_slice() == [0xff]));
    assert!(EnvDeserializer::from_iter(Vec::new()).check_fields(&[]).is_ok());
}
