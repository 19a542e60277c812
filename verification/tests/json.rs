use gharchive_source::json::{find_entry, Json, JsonNumber};
use gharchive_source::text::text_eq;

fn sample() -> Json {
    Json::Object(vec![
        ("a".to_string(), Json::Str("x".to_string())),
        ("b".to_string(), Json::Number(JsonNumber::NegInt(-3))),
        ("a".to_string(), Json::Null),
        ("".to_string(), Json::Bool(true)),
    ])
}

#[test]
fn get_finds_the_first_entry() {
    let doc = sample();
    assert_eq!(doc.get("a"), Some(&Json::Str("x".to_string())));
    assert_eq!(doc.get("b"), Some(&Json::Number(JsonNumber::NegInt(-3))));
    assert_eq!(doc.get(""), Some(&Json::Bool(true)));
    assert_eq!(doc.get("c"), None);
    assert_eq!(doc.get("A"), None);
    assert_eq!(doc.get("ab"), None);
}

#[test]
fn get_on_what_is_no_object() {
    assert_eq!(Json::Null.get("a"), None);
    assert_eq!(Json::Array(vec![sample()]).get("a"), None);
    assert_eq!(Json::Str("a".to_string()).get("a"), None);
}

#[test]
fn into_member_takes_the_first_entry() {
    assert_eq!(sample().into_member("a"), Some(Json::Str("x".to_string())));
    assert_eq!(sample().into_member(""), Some(Json::Bool(true)));
    assert_eq!(sample().into_member("z"), None);
    assert_eq!(Json::Bool(true).into_member("a"), None);
}

#[test]
fn find_entry_gives_the_first_place() {
    let entries = match sample() {
        Json::Object(entries) => entries,
        _ => unreachable!(),
    };
    assert_eq!(find_entry(&entries, "a"), Some(0));
    assert_eq!(find_entry(&entries, "b"), Some(1));
    assert_eq!(find_entry(&entries, ""), Some(3));
    assert_eq!(find_entry(&entries, "c"), None);
    assert_eq!(find_entry(&Vec::new(), "a"), None);
}

#[test]
fn accessors_tell_the_variants_apart() {
    let s = Json::Str("t".to_string());
    assert_eq!(s.as_str(), Some("t"));
    assert_eq!(s.as_i64(), None);
    assert_eq!(s.as_bool(), None);
    assert!(!s.is_null());
    let b = Json::Bool(false);
    assert_eq!(b.as_bool(), Some(false));
    assert_eq!(b.as_str(), None);
    let n = Json::Number(JsonNumber::PosInt(7));
    assert_eq!(n.as_i64(), Some(7));
    assert_eq!(n.as_bool(), None);
    assert!(Json::Null.is_null());
    assert_eq!(Json::Null.as_i64(), None);
    assert_eq!(Json::Array(Vec::new()).as_str(), None);
}

#[test]
fn number_as_i64() {
    assert_eq!(JsonNumber::PosInt(0).as_i64(), Some(0));
    assert_eq!(JsonNumber::PosInt(i64::MAX as u64).as_i64(), Some(i64::MAX));
    assert_eq!(JsonNumber::PosInt(i64::MAX as u64 + 1).as_i64(), None);
    assert_eq!(JsonNumber::NegInt(-1).as_i64(), Some(-1));
    assert_eq!(JsonNumber::NegInt(i64::MIN).as_i64(), Some(i64::MIN));
    assert_eq!(JsonNumber::Real(0).as_i64(), None);
    assert_eq!(JsonNumber::Real(2.0f64.to_bits()).as_i64(), None);
}

#[test]
fn clone_is_a_deep_copy() {
    let doc = Json::Array(vec![sample(), Json::Array(vec![Json::Null]), Json::Object(Vec::new())]);
    let copy = doc.clone();
    assert_eq!(copy, doc);
    assert_ne!(copy, sample());
}

#[test]
fn text_eq_compares_characters() {
    assert!(text_eq("", ""));
    assert!(text_eq("gz", "gz"));
    assert!(text_eq("caf\u{e9}", "caf\u{e9}"));
    assert!(!text_eq("gz", "g"));
    assert!(!text_eq("g", "gz"));
    assert!(!text_eq("gz", "gZ"));
    assert!(!text_eq("caf\u{e9}", "cafe\u{301}"));
    assert!(!text_eq("", " "));
}
