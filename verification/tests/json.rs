use jsonrpc_transport::json::{Json, JsonNumber};
use jsonrpc_transport::text::{str_eq, strip_line_feed};
use jsonrpc_transport::wire::{parse, print};

fn object(members: Vec<(&str, Json)>) -> Json {
    Json::Object(members.into_iter().map(|(name, value)| (name.to_string(), value)).collect())
}

#[test]
fn parse_reads_members_in_order() {
    let json = parse(r#"{"b":1,"a":[true,null,-2,"x",1.5]}"#).unwrap();
    let expected = object(vec![
        ("b", Json::Number(JsonNumber::PosInt(1))),
        (
            "a",
            Json::Array(vec![
                Json::Bool(true),
                Json::Null,
                Json::Number(JsonNumber::NegInt(-2)),
                Json::String("x".to_string()),
                Json::Number(JsonNumber::Float("1.5".to_string())),
            ]),
        ),
    ]);
    assert_eq!(json, expected);
}

#[test]
fn parse_keeps_the_last_of_a_name_that_comes_twice() {
    let json = parse(r#"{"a":1,"b":2,"a":3}"#).unwrap();
    let expected = object(vec![
        ("a", Json::Number(JsonNumber::PosInt(3))),
        ("b", Json::Number(JsonNumber::PosInt(2))),
    ]);
    assert_eq!(json, expected);
}

#[test]
fn parse_tells_numbers_apart() {
    assert_eq!(parse("0"), Some(Json::Number(JsonNumber::PosInt(0))));
    assert_eq!(parse("18446744073709551615"), Some(Json::Number(JsonNumber::PosInt(u64::MAX))));
    assert_eq!(parse("-9223372036854775808"), Some(Json::Number(JsonNumber::NegInt(i64::MIN))));
    assert_eq!(parse("1.0"), Some(Json::Number(JsonNumber::Float("1.0".to_string()))));
    assert_eq!(parse("1e2"), Some(Json::Number(JsonNumber::Float("100.0".to_string()))));
}

#[test]
fn parse_skips_white_space_around_the_value() {
    assert_eq!(parse(" \t\r\n null \n"), Some(Json::Null));
}

#[test]
fn parse_fails_on_what_is_not_json() {
    assert_eq!(parse(""), None);
    assert_eq!(parse("{"), None);
    assert_eq!(parse("[1,]"), None);
    assert_eq!(parse("1 2"), None);
    assert_eq!(parse("'a'"), None);
}

#[test]
fn print_writes_compact_text() {
    let json = object(vec![
        ("b", Json::Number(JsonNumber::PosInt(1))),
        (
            "a",
            Json::Array(vec![
                Json::Bool(false),
                Json::Number(JsonNumber::Float("1.5".to_string())),
                Json::Number(JsonNumber::NegInt(-3)),
                Json::Null,
            ]),
        ),
        ("s", Json::String("q\"\\".to_string())),
    ]);
    assert_eq!(print(&json).unwrap(), r#"{"b":1,"a":[false,1.5,-3,null],"s":"q\"\\"}"#);
}

#[test]
fn print_fails_on_text_that_is_no_number() {
    assert_eq!(print(&Json::Number(JsonNumber::Float("one".to_string()))), None);
    assert_eq!(print(&Json::Array(vec![Json::Number(JsonNumber::Float("".to_string()))])), None);
}

#[test]
fn print_then_parse_gives_the_value_back() {
    let json = object(vec![
        ("n", Json::Number(JsonNumber::Float("0.1".to_string()))),
        ("big", Json::Number(JsonNumber::Float("-1234.5".to_string()))),
        ("deep", Json::Array(vec![object(vec![("k", Json::Array(vec![]))])])),
    ]);
    let text = print(&json).unwrap();
    assert_eq!(parse(&text), Some(json));
}

#[test]
fn json_answers_for_its_kind() {
    let json = parse(r#"{"s":"text","n":7,"m":-7,"z":null,"o":{}}"#).unwrap();
    assert!(json.is_object());
    assert!(!json.is_null());
    assert_eq!(json.as_object().map(|members| members.len()), Some(5));
    assert_eq!(json.get("s").unwrap().as_str(), Some("text"));
    assert_eq!(json.get("n").unwrap().as_u64(), Some(7));
    assert_eq!(json.get("n").unwrap().as_i64(), Some(7));
    assert_eq!(json.get("m").unwrap().as_u64(), None);
    assert_eq!(json.get("m").unwrap().as_i64(), Some(-7));
    assert!(json.get("z").unwrap().is_null());
    assert!(json.get("o").unwrap().is_object());
    assert_eq!(json.get("missing"), None);
    assert_eq!(json.get("s").unwrap().get("s"), None);
    assert_eq!(json.get("s").unwrap().as_u64(), None);
    assert_eq!(json.get("n").unwrap().as_str(), None);
    assert_eq!(json.get("n").unwrap().as_object(), None);
}

#[test]
fn integers_are_read_whatever_holds_them() {
    assert_eq!(Json::Number(JsonNumber::NegInt(5)).as_u64(), Some(5));
    assert_eq!(Json::Number(JsonNumber::PosInt(u64::MAX)).as_i64(), None);
    assert_eq!(Json::Number(JsonNumber::PosInt(1 << 63)).as_i64(), None);
    assert_eq!(Json::Number(JsonNumber::PosInt((1 << 63) - 1)).as_i64(), Some(i64::MAX));
    assert_eq!(Json::Number(JsonNumber::Float("5".to_string())).as_u64(), None);
}

#[test]
fn get_finds_the_first_member_of_a_name() {
    let json = object(vec![
        ("a", Json::Bool(true)),
        ("b", Json::Null),
        ("a", Json::Bool(false)),
    ]);
    assert_eq!(json.get("a"), Some(&Json::Bool(true)));
    assert!(!json.has_distinct_names());
    assert!(object(vec![("a", Json::Null), ("b", Json::Null)]).has_distinct_names());
    assert!(object(vec![]).has_distinct_names());
    assert!(Json::Null.has_distinct_names());
}

#[test]
fn clone_copies_every_part() {
    let json = parse(r#"{"a":[1,{"b":[null,"c",-1,2.5]}],"d":{}}"#).unwrap();
    assert_eq!(json.clone(), json);
    let number = JsonNumber::Float("2.5".to_string());
    assert_eq!(number.clone(), number);
}

#[test]
fn str_eq_compares_characters() {
    assert!(str_eq("", ""));
    assert!(str_eq("jsonrpc", "jsonrpc"));
    assert!(str_eq("né", "né"));
    assert!(!str_eq("id", "id "));
    assert!(!str_eq("id", "iD"));
    assert!(!str_eq("a", ""));
}

#[test]
fn strip_line_feed_takes_one_line_feed_from_the_end() {
    assert_eq!(strip_line_feed("{}\n"), "{}");
    assert_eq!(strip_line_feed("{}"), "{}");
    assert_eq!(strip_line_feed("{}\n\n"), "{}\n");
    assert_eq!(strip_line_feed("\n"), "");
    assert_eq!(strip_line_feed(""), "");
    assert_eq!(strip_line_feed("{}\r\n"), "{}\r");
    assert_eq!(strip_line_feed("\n{}"), "\n{}");
    assert_eq!(strip_line_feed("é\n"), "é");
}
