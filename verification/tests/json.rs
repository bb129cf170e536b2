use splits_io_api::json::quote;
use splits_io_api::json::write_object;
use splits_io_api::json::Json;
use splits_io_api::json::Number;
use splits_io_api::Uuid;

fn text(s: &str) -> Json {
    Json::Text(s.to_string())
}

#[test]
fn parse_reads_scalars() {
    assert_eq!(Json::parse("null"), Ok(Json::Null));
    assert_eq!(Json::parse("true"), Ok(Json::Bool(true)));
    assert_eq!(Json::parse("false"), Ok(Json::Bool(false)));
    assert_eq!(Json::parse("\"a\\nb\""), Ok(text("a\nb")));
    assert_eq!(Json::parse(" 14 "), Ok(Json::Number(Number::PosInt(14))));
    assert_eq!(Json::parse("-3"), Ok(Json::Number(Number::NegInt(-3))));
}

#[test]
fn parse_keeps_a_double_as_its_bits() {
    assert_eq!(Json::parse("1.5"), Ok(Json::Number(Number::Float(1.5f64.to_bits()))));
    assert_eq!(Json::parse("-0.25"), Ok(Json::Number(Number::Float((-0.25f64).to_bits()))));
    assert_eq!(
        Json::parse("18446744073709551615"),
        Ok(Json::Number(Number::PosInt(u64::MAX)))
    );
    assert_eq!(
        Json::parse("-9223372036854775808"),
        Ok(Json::Number(Number::NegInt(i64::MIN)))
    );
}

#[test]
fn parse_reads_nested_documents() {
    let doc = Json::parse("{\"a\":[1,{\"b\":null}],\"c\":\"d\"}").unwrap();
    assert_eq!(
        doc,
        Json::Object(vec![
            (
                "a".to_string(),
                Json::Array(vec![
                    Json::Number(Number::PosInt(1)),
                    Json::Object(vec![("b".to_string(), Json::Null)]),
                ])
            ),
            ("c".to_string(), text("d")),
        ])
    );
}

#[test]
fn parse_refuses_what_is_no_document() {
    assert!(Json::parse("").is_err());
    assert!(Json::parse("{").is_err());
    assert!(Json::parse("{\"a\":1} x").is_err());
    assert!(Json::parse("nul").is_err());
    let message = Json::parse("[1,").unwrap_err();
    assert!(!message.is_empty());
}

#[test]
fn parse_is_repeatable() {
    let frame = "{\"x\":[1,2,3],\"y\":{\"z\":\"w\"}}";
    assert_eq!(Json::parse(frame), Json::parse(frame));
    assert_eq!(Json::parse("{"), Json::parse("{"));
}

#[test]
fn field_takes_the_first_member_of_a_name() {
    let doc = Json::Object(vec![
        ("a".to_string(), text("first")),
        ("b".to_string(), Json::Null),
        ("a".to_string(), text("second")),
    ]);
    assert_eq!(doc.field("a"), Some(&text("first")));
    assert_eq!(doc.field("b"), Some(&Json::Null));
    assert_eq!(doc.field("c"), None);
    assert_eq!(doc.field(""), None);
    assert_eq!(text("a").field("a"), None);
    assert_eq!(Json::Array(vec![text("a")]).field("a"), None);
}

#[test]
fn present_takes_null_for_missing() {
    let doc = Json::Object(vec![
        ("a".to_string(), Json::Null),
        ("b".to_string(), Json::Bool(false)),
    ]);
    assert_eq!(doc.present("a"), None);
    assert_eq!(doc.present("b"), Some(&Json::Bool(false)));
    assert_eq!(doc.present("c"), None);
}

#[test]
fn quote_escapes_what_json_escapes() {
    assert_eq!(quote(""), "\"\"");
    assert_eq!(quote("abc"), "\"abc\"");
    assert_eq!(quote("a\"b"), "\"a\\\"b\"");
    assert_eq!(quote("a\\b"), "\"a\\\\b\"");
    assert_eq!(quote("\u{8}\u{c}\n\r\t"), "\"\\b\\f\\n\\r\\t\"");
    assert_eq!(quote("\u{0}\u{1f}\u{b}"), "\"\\u0000\\u001f\\u000b\"");
    assert_eq!(quote("\u{7f}é/"), "\"\u{7f}é/\"");
}

#[test]
fn quote_agrees_with_serde_json_on_every_small_character() {
    for code in 0u32..0x250 {
        let c = char::from_u32(code).unwrap();
        let s = format!("x{}y", c);
        assert_eq!(quote(&s), serde_json::to_string(&s).unwrap());
    }
}

#[test]
fn quote_is_read_back_by_parse() {
    for s in ["", "plain", "q\"uote", "back\\slash", "line\nbreak", "\u{1}\u{1f}", "ünï"] {
        assert_eq!(Json::parse(&quote(s)), Ok(text(s)));
    }
}

#[test]
fn write_object_joins_members_with_commas() {
    assert_eq!(write_object(&vec![]), "{}");
    assert_eq!(write_object(&vec![("a".to_string(), "1".to_string())]), "{\"a\":1}");
    assert_eq!(
        write_object(&vec![
            ("a".to_string(), "1".to_string()),
            ("b\"".to_string(), "null".to_string()),
            ("c".to_string(), "{}".to_string()),
        ]),
        "{\"a\":1,\"b\\\"\":null,\"c\":{}}"
    );
}

#[test]
fn uuid_parse_reads_the_forms_of_the_uuid_crate() {
    let value = 0x11111111_1111_1111_1111_111111111111u128;
    assert_eq!(Uuid::parse("11111111-1111-1111-1111-111111111111"), Some(Uuid(value)));
    assert_eq!(Uuid::parse("11111111111111111111111111111111"), Some(Uuid(value)));
    assert_eq!(
        Uuid::parse("A1A2A3A4-B1B2-C1C2-D1D2-D3D4D5D6D7D8"),
        Some(Uuid(0xa1a2a3a4_b1b2_c1c2_d1d2_d3d4d5d6d7d8))
    );
    assert_eq!(Uuid::parse(""), None);
    assert_eq!(Uuid::parse("11111111-1111-1111-1111-11111111111"), None);
    assert_eq!(Uuid::parse("g1111111-1111-1111-1111-111111111111"), None);
}

#[test]
fn uuid_hyphenated_writes_lower_case_groups() {
    assert_eq!(
        Uuid(0xa1a2a3a4_b1b2_c1c2_d1d2_d3d4d5d6d7d8).hyphenated(),
        "a1a2a3a4-b1b2-c1c2-d1d2-d3d4d5d6d7d8"
    );
    assert_eq!(Uuid(0).hyphenated(), "00000000-0000-0000-0000-000000000000");
    assert_eq!(Uuid(u128::MAX).hyphenated(), "ffffffff-ffff-ffff-ffff-ffffffffffff");
    assert_eq!(Uuid(0x1f).hyphenated(), "00000000-0000-0000-0000-00000000001f");
}

#[test]
fn uuid_is_read_back_from_its_hyphenated_form() {
    for value in [0u128, 1, 0xdead_beef, u128::MAX, 0x0123_4567_89ab_cdef_0123_4567_89ab_cdef] {
        assert_eq!(Uuid::parse(&Uuid(value).hyphenated()), Some(Uuid(value)));
    }
}

fn mirror(value: serde_json::Value) -> Json {
    match value {
        serde_json::Value::Null => Json::Null,
        serde_json::Value::Bool(b) => Json::Bool(b),
        serde_json::Value::Number(n) => Json::Number(if let Some(u) = n.as_u64() {
            Number::PosInt(u)
        } else if let Some(i) = n.as_i64() {
            Number::NegInt(i)
        } else {
            Number::Float(n.as_f64().unwrap().to_bits())
        }),
        serde_json::Value::String(s) => Json::Text(s),
        serde_json::Value::Array(items) => Json::Array(items.into_iter().map(mirror).collect()),
        serde_json::Value::Object(members) => {
            Json::Object(members.into_iter().map(|(name, below)| (name, mirror(below))).collect())
        }
    }
}

#[test]
fn parse_holds_what_serde_json_reads() {
    let texts = [
        "null",
        "[]",
        "{}",
        "[[],[[]],{\"a\":{}}]",
        "{\"b\":1,\"a\":-1,\"c\":1e3,\"d\":[true,false,null,\"x\"]}",
        "{\"dup\":1,\"dup\":2}",
        "\"\\u00e9\\ud83d\\ude00\"",
        "[0,-0,0.0,1e-7,123456789012345678901234567890]",
        "{\"type\":\"ping\"}",
        " [ 1 , 2 ] ",
    ];
    for text in texts {
        let value: serde_json::Value = serde_json::from_str(text).unwrap();
        assert_eq!(Json::parse(text), Ok(mirror(value)));
    }
    for text in ["", "[", "{\"a\"}", "tru", "1 2", "[1,]", "\"\\x\"", "1e999"] {
        let error = serde_json::from_str::<serde_json::Value>(text).unwrap_err();
        assert_eq!(Json::parse(text), Err(error.to_string()));
    }
}

#[test]
fn parse_stops_at_the_depth_that_serde_json_allows() {
    let deep = |depth: usize| format!("{}{}", "[".repeat(depth), "]".repeat(depth));
    assert!(Json::parse(&deep(100)).is_ok());
    assert!(Json::parse(&deep(1000)).is_err());
}
