use docker_dashboard::json::Json;

fn text(s: &str) -> Json {
    Json::Text(s.to_string())
}

#[test]
fn parse_reads_every_kind_of_value() {
    let doc = Json::parse(br#"{"s":"x","l":[null,true,false,"y",[],{}],"o":{"k":"v"}}"#).unwrap();
    let expected = Json::Object(vec![
        (
            "l".to_string(),
            Json::Array(vec![
                Json::Null,
                Json::Bool(true),
                Json::Bool(false),
                text("y"),
                Json::Array(vec![]),
                Json::Object(vec![]),
            ]),
        ),
        ("o".to_string(), Json::Object(vec![("k".to_string(), text("v"))])),
        ("s".to_string(), text("x")),
    ]);
    assert_eq!(doc, expected);
}

#[test]
fn parse_carries_numbers() {
    let doc = Json::parse(b"[1, -2, 3.5]").unwrap();
    let expected = Json::Array(vec![
        Json::Number(serde_json::Number::from(1u64)),
        Json::Number(serde_json::Number::from(-2i64)),
        Json::Number(serde_json::Number::from_f64(3.5).unwrap()),
    ]);
    assert_eq!(doc, expected);
}

#[test]
fn parse_unescapes_strings() {
    assert_eq!(Json::parse(br#""a\"b\\cA\n""#), Some(text("a\"b\\cA\n")));
}

#[test]
fn parse_refuses_what_is_no_json() {
    assert_eq!(Json::parse(b""), None);
    assert_eq!(Json::parse(b"{"), None);
    assert_eq!(Json::parse(b"[1,]"), None);
    assert_eq!(Json::parse(b"nul"), None);
    assert_eq!(Json::parse(b"{} x"), None);
    assert_eq!(Json::parse(&[0xff, 0xfe]), None);
}

#[test]
fn parse_keeps_the_later_of_two_members_with_one_name() {
    let doc = Json::parse(br#"{"a":"first","a":"second"}"#).unwrap();
    assert_eq!(doc, Json::Object(vec![("a".to_string(), text("second"))]));
}

#[test]
fn get_finds_the_last_member_of_that_name() {
    let members = vec![
        ("a".to_string(), text("1")),
        ("b".to_string(), text("2")),
        ("a".to_string(), text("3")),
        ("c".to_string(), Json::Null),
    ];
    assert_eq!(Json::get(&members, "a"), Some(&text("3")));
    assert_eq!(Json::get(&members, "b"), Some(&text("2")));
    assert_eq!(Json::get(&members, "c"), Some(&Json::Null));
    assert_eq!(Json::get(&members, "d"), None);
    assert_eq!(Json::get(&members, ""), None);
    assert_eq!(Json::get(&members, "A"), None);
    assert_eq!(Json::get(&vec![], "a"), None);
}

#[test]
fn get_text_wants_a_string() {
    let members = vec![
        ("a".to_string(), text("1")),
        ("n".to_string(), Json::Null),
        ("l".to_string(), Json::Array(vec![text("x")])),
        ("t".to_string(), Json::Bool(true)),
        ("a".to_string(), Json::Bool(false)),
        ("e".to_string(), text("")),
    ];
    assert_eq!(Json::get_text(&members, "a"), None);
    assert_eq!(Json::get_text(&members, "n"), None);
    assert_eq!(Json::get_text(&members, "l"), None);
    assert_eq!(Json::get_text(&members, "t"), None);
    assert_eq!(Json::get_text(&members, "e"), Some(&String::new()));
    assert_eq!(Json::get_text(&members, "missing"), None);
}
