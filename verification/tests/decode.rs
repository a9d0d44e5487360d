use footy::decode::{read_goals, read_team, read_venue};
use footy::json::{
    find_member, member_of, read_bool, read_i32, read_i64, read_text, read_u16, read_u64, Json,
    JsonNumber, MemberRef,
};
use footy::model::{GoalsData, Team};

fn unsigned(n: u64) -> Json {
    Json::Number(JsonNumber::Unsigned(n))
}

fn negative(n: i64) -> Json {
    Json::Number(JsonNumber::Negative(n))
}

fn text(s: &str) -> Json {
    Json::Text(s.to_string())
}

fn object(members: Vec<(&str, Json)>) -> Json {
    Json::Object(members.into_iter().map(|(k, v)| (k.to_string(), v)).collect())
}

#[test]
fn integers_are_read_within_their_ranges() {
    assert_eq!(read_u64(&unsigned(u64::MAX)), Some(u64::MAX));
    assert_eq!(read_u64(&negative(-1)), None);
    assert_eq!(read_u64(&negative(5)), Some(5));
    assert_eq!(read_u64(&Json::Number(JsonNumber::Fraction)), None);
    assert_eq!(read_u64(&text("1")), None);
    assert_eq!(read_u64(&Json::Null), None);
    assert_eq!(read_i64(&unsigned(i64::MAX as u64)), Some(i64::MAX));
    assert_eq!(read_i64(&unsigned(i64::MAX as u64 + 1)), None);
    assert_eq!(read_i64(&negative(i64::MIN)), Some(i64::MIN));
    assert_eq!(read_i32(&unsigned(2147483647)), Some(i32::MAX));
    assert_eq!(read_i32(&unsigned(2147483648)), None);
    assert_eq!(read_i32(&negative(-2147483648)), Some(i32::MIN));
    assert_eq!(read_i32(&negative(-2147483649)), None);
    assert_eq!(read_u16(&unsigned(65535)), Some(u16::MAX));
    assert_eq!(read_u16(&unsigned(65536)), None);
    assert_eq!(read_u16(&negative(-1)), None);
}

#[test]
fn texts_and_truth_values_are_read_strictly() {
    assert_eq!(read_text(&text("abc")), Some("abc".to_string()));
    assert_eq!(read_text(&unsigned(1)), None);
    assert_eq!(read_text(&Json::Null), None);
    assert_eq!(read_bool(&Json::Bool(false)), Some(false));
    assert_eq!(read_bool(&unsigned(0)), None);
    assert_eq!(read_bool(&text("true")), None);
}

#[test]
fn a_member_is_found_by_name_or_by_position() {
    let record = object(vec![("a", unsigned(1)), ("b", unsigned(2)), ("a", unsigned(3))]);
    assert!(matches!(member_of(&record, "a", 0, 2), MemberRef::Present(v) if *v == unsigned(1)));
    assert!(matches!(member_of(&record, "b", 5, 2), MemberRef::Present(v) if *v == unsigned(2)));
    assert!(matches!(member_of(&record, "c", 0, 2), MemberRef::Absent));
    let list = Json::Array(vec![unsigned(7), unsigned(8)]);
    assert!(matches!(member_of(&list, "a", 1, 2), MemberRef::Present(v) if *v == unsigned(8)));
    assert!(matches!(member_of(&list, "a", 1, 3), MemberRef::NotRecord));
    assert!(matches!(member_of(&list, "a", 2, 2), MemberRef::NotRecord));
    assert!(matches!(member_of(&Json::Null, "a", 0, 1), MemberRef::NotRecord));
    assert!(matches!(member_of(&text("a"), "a", 0, 1), MemberRef::NotRecord));
    match &record {
        Json::Object(entries) => {
            assert_eq!(find_member(entries, "b"), Some(&unsigned(2)));
            assert_eq!(find_member(entries, "B"), None);
        }
        _ => unreachable!(),
    }
}

#[test]
fn a_team_is_read_from_an_object() {
    let json = object(vec![
        ("logo", text("l.png")),
        ("name", text("Liverpool")),
        ("extra", Json::Array(vec![])),
        ("id", unsigned(40)),
    ]);
    assert_eq!(
        read_team(&json),
        Some(Team { id: 40, name: "Liverpool".to_string(), logo: "l.png".to_string(), winner: None })
    );
    let with_winner = object(vec![
        ("id", unsigned(40)),
        ("name", text("Liverpool")),
        ("logo", text("l.png")),
        ("winner", Json::Bool(true)),
    ]);
    assert_eq!(read_team(&with_winner).unwrap().winner, Some(true));
    let bad_winner = object(vec![
        ("id", unsigned(40)),
        ("name", text("Liverpool")),
        ("logo", text("l.png")),
        ("winner", unsigned(1)),
    ]);
    assert_eq!(read_team(&bad_winner), None);
    assert_eq!(read_team(&object(vec![("id", unsigned(40)), ("name", text("Liverpool"))])), None);
    assert_eq!(read_team(&Json::Null), None);
}

#[test]
fn goals_may_be_null_or_missing() {
    assert_eq!(read_goals(&object(vec![])), Some(GoalsData { home: None, away: None }));
    assert_eq!(
        read_goals(&object(vec![("home", unsigned(2)), ("away", Json::Null)])),
        Some(GoalsData { home: Some(2), away: None })
    );
    assert_eq!(read_goals(&object(vec![("home", text("2"))])), None);
    assert_eq!(
        read_goals(&Json::Array(vec![Json::Null, unsigned(1)])),
        Some(GoalsData { home: None, away: Some(1) })
    );
    assert_eq!(read_goals(&Json::Array(vec![unsigned(1)])), None);
    assert_eq!(read_goals(&unsigned(1)), None);
}

#[test]
fn a_venue_needs_its_name_and_city() {
    let json = object(vec![("name", text("Anfield")), ("city", text("Liverpool"))]);
    let venue = read_venue(&json).unwrap();
    assert_eq!(venue.id, None);
    assert_eq!(venue.name, "Anfield");
    assert_eq!(venue.city, "Liverpool");
    assert_eq!(read_venue(&object(vec![("name", text("Anfield"))])), None);
    assert_eq!(read_venue(&object(vec![("name", Json::Null), ("city", text("x"))])), None);
}

/// Single values are read as `serde_json` reads them into the same types.
#[test]
fn single_values_agree_with_serde_json() {
    let texts = [
        "null", "true", "false", "0", "1", "-1", "-0", "65535", "65536", "2147483647",
        "2147483648", "-2147483648", "-2147483649", "9223372036854775807",
        "9223372036854775808", "-9223372036854775808", "-9223372036854775809",
        "18446744073709551615", "18446744073709551616", "1.0", "1e2", "0.5", "\"\"", "\"1\"",
        "\"true\"", "[]", "[1]", "{}", "{\"a\": 1}",
    ];
    for text in texts {
        let value: serde_json::Value = serde_json::from_str(text).unwrap();
        let json = footy::json::parse_json(text).unwrap();
        assert_eq!(read_u64(&json), serde_json::from_value::<u64>(value.clone()).ok(), "{text}");
        assert_eq!(read_i64(&json), serde_json::from_value::<i64>(value.clone()).ok(), "{text}");
        assert_eq!(read_i32(&json), serde_json::from_value::<i32>(value.clone()).ok(), "{text}");
        assert_eq!(read_u16(&json), serde_json::from_value::<u16>(value.clone()).ok(), "{text}");
        assert_eq!(read_bool(&json), serde_json::from_value::<bool>(value.clone()).ok(), "{text}");
        assert_eq!(read_text(&json), serde_json::from_value::<String>(value.clone()).ok(), "{text}");
        let wrapped = Json::Array(vec![json]);
        let by_serde = serde_json::from_value::<(Option<u64>,)>(serde_json::Value::Array(vec![value]));
        assert_eq!(
            footy::decode::field_opt_u64(&wrapped, "x", 0, 1),
            by_serde.ok().map(|pair| pair.0),
            "{text}"
        );
    }
}
