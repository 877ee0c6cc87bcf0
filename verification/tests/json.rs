use niege::json::{put, reads, Json, Member, Number};

fn sample() -> Json {
    Json::Object(vec![
        Member { key: "a".to_string(), value: Json::Number(Number::Int(1)) },
        Member { key: "b".to_string(), value: Json::String("x".to_string()) },
        Member { key: "a".to_string(), value: Json::Number(Number::Int(2)) },
    ])
}

#[test]
fn get_finds_a_member() {
    assert_eq!(sample().get("b"), Some(&Json::String("x".to_string())));
}

#[test]
fn get_takes_the_later_of_two_members_with_one_key() {
    assert_eq!(sample().get("a"), Some(&Json::Number(Number::Int(2))));
}

#[test]
fn get_finds_nothing_under_a_missing_key() {
    assert_eq!(sample().get("c"), None);
    assert_eq!(sample().get(""), None);
    assert_eq!(Json::Object(vec![]).get("a"), None);
}

#[test]
fn get_finds_nothing_in_what_is_no_object() {
    assert_eq!(Json::Null.get("a"), None);
    assert_eq!(Json::Array(vec![sample()]).get("a"), None);
    assert_eq!(Json::String("a".to_string()).get("a"), None);
}

#[test]
fn put_appends_a_member() {
    let mut members = vec![];
    put(&mut members, "k", Json::Bool(true));
    put(&mut members, "k", Json::Bool(false));
    assert_eq!(
        members,
        vec![
            Member { key: "k".to_string(), value: Json::Bool(true) },
            Member { key: "k".to_string(), value: Json::Bool(false) },
        ]
    );
    assert_eq!(Json::Object(members).get("k"), Some(&Json::Bool(false)));
}

#[test]
fn duplicate_copies_the_whole_value() {
    let json = Json::Array(vec![
        sample(),
        Json::Null,
        Json::Bool(true),
        Json::Number(Number::Uint(u64::MAX)),
        Json::Number(Number::Real("1.5".to_string())),
        Json::Array(vec![Json::Array(vec![])]),
    ]);
    assert_eq!(json.duplicate(), json);
    assert_eq!(Number::Real("1.5".to_string()).duplicate(), Number::Real("1.5".to_string()));
}

#[test]
fn as_i64_gives_integers_in_range() {
    assert_eq!(Number::Int(-3).as_i64(), Some(-3));
    assert_eq!(Number::Int(i64::MIN).as_i64(), Some(i64::MIN));
    assert_eq!(Number::Uint(0).as_i64(), Some(0));
    assert_eq!(Number::Uint(9223372036854775807).as_i64(), Some(i64::MAX));
}

#[test]
fn as_i64_gives_nothing_else() {
    assert_eq!(Number::Uint(9223372036854775808).as_i64(), None);
    assert_eq!(Number::Uint(u64::MAX).as_i64(), None);
    assert_eq!(Number::Real("1.0".to_string()).as_i64(), None);
    assert_eq!(Number::Real("1".to_string()).as_i64(), None);
}

#[test]
fn reads_compares_the_whole_text() {
    assert!(reads(&"tg".to_string(), "tg"));
    assert!(!reads(&"tg".to_string(), "t"));
    assert!(!reads(&"tg".to_string(), "TG"));
    assert!(reads(&String::new(), ""));
}
