use fuse_locations::variant::{
    check_json_scalar, comparison_cast_signatures, json_scalar_from_bool, match_cast_signatures,
    try_parse_json_scalar, ScalarType,
    get_path_value, json_number_from_int16, json_number_from_int32, json_number_from_int64,
    json_number_from_int8, json_number_from_uint16, json_number_from_uint32,
    json_number_from_uint64, json_number_from_uint8, try_to_date, try_to_int16,
    try_to_uint16, JsonScalar,
};
use fuse_locations::variant::{
    cast_or_error, check_json_text, container_unless_empty, extract_path_text,
    get_index_lookup, get_name_lookup, get_path_lookup, is_blank, jsonb_null, length_of,
    parse_json_text, scalar_unless_empty, to_date, to_int16, to_int32, to_int64, to_int8,
    to_uint16, to_uint32, to_uint64, to_uint8, try_parse_json_text, try_to_int8,
    try_to_uint32, try_to_uint8,
};

#[test]
fn null_encoding() {
    assert_eq!(jsonb_null(), vec![0x20, 0, 0, 0, 0, 0, 0, 0]);
}

#[test]
fn blank_texts() {
    assert!(is_blank(b""));
    assert!(is_blank(b" \t\n"));
    assert!(is_blank(" \u{2003} ".as_bytes()));
    assert!(!is_blank(b" 1 "));
}

#[test]
fn parse_json_rules() {
    assert_eq!(parse_json_text(b"  ", Err("ignored".to_string())), Ok(jsonb_null()));
    assert_eq!(parse_json_text(b"1", Ok(vec![7, 8])), Ok(vec![7, 8]));
    assert_eq!(
        parse_json_text(b"{x", Err("EOF".to_string())),
        Err("unable to parse '{x': EOF".to_string())
    );
    assert_eq!(
        parse_json_text(b"\xff", Err("bad".to_string())),
        Err("unable to parse '\u{fffd}': bad".to_string())
    );
}

#[test]
fn try_parse_and_check_json_rules() {
    assert_eq!(try_parse_json_text(b"", None), Some(jsonb_null()));
    assert_eq!(try_parse_json_text(b"x", None), None);
    assert_eq!(try_parse_json_text(b"1", Some(vec![1])), Some(vec![1]));
    assert_eq!(check_json_text(b" ", Some("e".to_string())), None);
    assert_eq!(check_json_text(b"1", None), None);
    assert_eq!(check_json_text(b"{", Some("e".to_string())), Some("e".to_string()));
}

#[test]
fn get_lookup_rules() {
    assert_eq!(get_index_lookup(Some(&[1u8][..]), Some(3)), Some(3));
    assert_eq!(get_index_lookup(Some(&[][..]), Some(3)), None);
    assert_eq!(get_index_lookup(None, Some(3)), None);
    assert_eq!(get_index_lookup(Some(&[1u8][..]), None), None);
    assert_eq!(get_name_lookup(Some(&[1u8][..]), Some(&b"k"[..])), Some("k".to_string()));
    assert_eq!(get_name_lookup(Some(&[1u8][..]), Some(&b"  "[..])), None);
    assert_eq!(get_name_lookup(Some(&[1u8][..]), Some(&b"\xff"[..])), None);
    assert_eq!(get_name_lookup(Some(&[][..]), Some(&b"k"[..])), None);
    assert_eq!(get_name_lookup(None, Some(&b"k"[..])), None);
    assert!(get_path_lookup(Some(&[1u8][..]), Some(&b"a"[..])));
    assert!(!get_path_lookup(Some(&[1u8][..]), Some(&b""[..])));
    assert!(!get_path_lookup(None, Some(&b"a"[..])));
}

#[test]
fn extract_path_text_rules() {
    assert_eq!(extract_path_text(b"", b"a", Some("x".into()), None, None), Ok(None));
    assert_eq!(extract_path_text(b"1", b"", None, None, Some("v".into())), Ok(None));
    assert_eq!(
        extract_path_text(b"{", b"a", Some("EOF".into()), Some("p".into()), None),
        Err("unable to parse '{': EOF".to_string())
    );
    assert_eq!(
        extract_path_text(b"{}", b"[", None, Some("bad".into()), None),
        Err("Invalid extraction path '[': bad".to_string())
    );
    assert_eq!(
        extract_path_text(b"{\"a\":1}", b"a", None, None, Some("1".into())),
        Ok(Some("1".to_string()))
    );
}

#[test]
fn as_rules() {
    assert_eq!(scalar_unless_empty(b"", Some(true)), None);
    assert_eq!(scalar_unless_empty(b"x", Some(true)), Some(true));
    assert_eq!(scalar_unless_empty::<i64>(b"x", None), None);
    assert_eq!(container_unless_empty(b"", true), None);
    assert_eq!(container_unless_empty(b"ab", true), Some(b"ab".to_vec()));
    assert_eq!(container_unless_empty(b"ab", false), None);
    assert_eq!(length_of(Some(3)), Some(3));
    assert_eq!(length_of(None), None);
}

#[test]
fn cast_rules() {
    assert_eq!(cast_or_error("true", "Boolean", Some(true)), Ok(true));
    assert_eq!(
        cast_or_error::<bool>("\"a\"", "Boolean", None),
        Err("unable to cast \"a\" to Boolean".to_string())
    );
    assert_eq!(to_date("\"1970-01-02\"", Some(719164)), Ok(1));
    assert_eq!(
        to_date("1", None),
        Err("unable to cast 1 to DateType".to_string())
    );
}

#[test]
fn integer_cast_rules() {
    assert_eq!(to_int8("-5", Some(-5)), Ok(-5));
    assert_eq!(to_int8("300", Some(300)), Err("unable to cast 300 to Int8".to_string()));
    assert_eq!(to_int8("\"a\"", None), Err("unable to cast \"a\" to Int8".to_string()));
    assert_eq!(to_int16("40000", Some(40000)), Err("unable to cast 40000 to Int16".to_string()));
    assert_eq!(to_int32("7", Some(7)), Ok(7));
    assert_eq!(to_int64("-9", Some(-9)), Ok(-9));
    assert_eq!(to_uint8("255", Some(255)), Ok(255));
    assert_eq!(to_uint8("256", Some(256)), Err("unable to cast 256 to UInt8".to_string()));
    assert_eq!(to_uint16("65536", Some(65536)), Err("unable to cast 65536 to UInt16".to_string()));
    assert_eq!(to_uint32("1", Some(1)), Ok(1));
    assert_eq!(to_uint64("18446744073709551615", Some(u64::MAX)), Ok(u64::MAX));
    assert_eq!(try_to_int8(Some(128)), None);
    assert_eq!(try_to_int8(Some(-128)), Some(-128));
    assert_eq!(try_to_uint8(None), None);
    assert_eq!(try_to_uint32(Some(1 << 32)), None);
}

#[test]
fn get_path_value_rules() {
    let v = &[1u8][..];
    assert_eq!(get_path_value(Some(v), Some(&b"a"[..]), true, Some(vec![9])), Some(vec![9]));
    assert_eq!(get_path_value(Some(v), Some(&b"a"[..]), true, None), None);
    // A path that does not parse gives NULL, not an error.
    assert_eq!(get_path_value(Some(v), Some(&b"[["[..]), false, Some(vec![9])), None);
    assert_eq!(get_path_value(Some(&[][..]), Some(&b"a"[..]), true, Some(vec![9])), None);
    assert_eq!(get_path_value(Some(v), None, true, Some(vec![9])), None);
}

#[test]
fn try_forms_turn_errors_into_null() {
    for c in [None, Some(-1i64), Some(5), Some(300), Some(i64::MAX)] {
        assert_eq!(try_to_int8(c), to_int8("x", c).ok());
        assert_eq!(try_to_int16(c), to_int16("x", c).ok());
    }
    for c in [None, Some(0u64), Some(70000), Some(u64::MAX)] {
        assert_eq!(try_to_uint16(c), to_uint16("x", c).ok());
        assert_eq!(try_to_uint8(c), to_uint8("x", c).ok());
    }
    for d in [None, Some(719163), Some(0)] {
        assert_eq!(try_to_date(d), to_date("x", d).ok());
    }
    for (text, parsed) in [("", Err("e".to_string())), ("1", Ok(vec![1u8])), ("{", Err("e".to_string()))] {
        assert_eq!(
            try_parse_json_text(text.as_bytes(), parsed.clone().ok()),
            parse_json_text(text.as_bytes(), parsed).ok()
        );
    }
}

#[test]
fn integer_values_become_json_numbers() {
    assert_eq!(json_number_from_int8(-128), JsonScalar::Int64(-128));
    assert_eq!(json_number_from_int16(300), JsonScalar::Int64(300));
    assert_eq!(json_number_from_int32(i32::MIN), JsonScalar::Int64(i32::MIN as i64));
    assert_eq!(json_number_from_int64(i64::MAX), JsonScalar::Int64(i64::MAX));
    assert_eq!(json_number_from_uint8(255), JsonScalar::UInt64(255));
    assert_eq!(json_number_from_uint16(65535), JsonScalar::UInt64(65535));
    assert_eq!(json_number_from_uint32(u32::MAX), JsonScalar::UInt64(u32::MAX as u64));
    assert_eq!(json_number_from_uint64(u64::MAX), JsonScalar::UInt64(u64::MAX));
}

#[test]
fn boolean_values_become_json_booleans() {
    assert_eq!(json_scalar_from_bool(true), JsonScalar::Bool(true));
    assert_eq!(json_scalar_from_bool(false), JsonScalar::Bool(false));
    assert_eq!(try_parse_json_scalar(JsonScalar::Bool(false)), Some(JsonScalar::Bool(false)));
    assert_eq!(try_parse_json_scalar(JsonScalar::UInt64(3)), Some(JsonScalar::UInt64(3)));
    assert_eq!(check_json_scalar(true), None);
    assert_eq!(check_json_scalar(7i16), None);
}

#[test]
fn cast_signature_tables() {
    let t = comparison_cast_signatures();
    assert_eq!(t.len(), 14);
    assert_eq!(t[0], (ScalarType::Boolean, ScalarType::Variant));
    assert_eq!(t[3], (ScalarType::String, ScalarType::Variant));
    assert_eq!(t[13], (ScalarType::Float64, ScalarType::Variant));
    assert!(t.iter().all(|(_, v)| *v == ScalarType::Variant));
    assert_eq!(match_cast_signatures(), vec![(ScalarType::String, ScalarType::Variant)]);
}

#[test]
fn ascii_white_space_is_blank() {
    for s in [&b"  "[..], &b"\t\n\x0b\x0c\r "[..], &b""[..]] {
        assert!(is_blank(s));
        assert_eq!(parse_json_text(s, Ok(vec![1])), Ok(jsonb_null()));
    }
}
