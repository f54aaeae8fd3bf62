use nimbledroid::json::{read_field, read_node, read_strings, read_u64};
use nimbledroid::parse::{parse_profile, parse_profile_result, parse_profile_scenarios};
use nimbledroid::ProfileStatus;
use std::time::Duration;

#[test]
fn status_names_map_exactly() {
    assert_eq!(ProfileStatus::from_name(Some("Crawling")), ProfileStatus::Crawling);
    assert_eq!(ProfileStatus::from_name(Some("Pending")), ProfileStatus::Pending);
    assert_eq!(ProfileStatus::from_name(Some("Complete")), ProfileStatus::Complete);
    assert_eq!(ProfileStatus::from_name(Some("Failed")), ProfileStatus::Failed);
    assert_eq!(ProfileStatus::from_name(Some("complete")), ProfileStatus::Error);
    assert_eq!(ProfileStatus::from_name(Some("Complete ")), ProfileStatus::Error);
    assert_eq!(ProfileStatus::from_name(Some("")), ProfileStatus::Error);
    assert_eq!(ProfileStatus::from_name(None), ProfileStatus::Error);
}

#[test]
fn terminal_statuses() {
    assert!(ProfileStatus::Complete.is_terminal());
    assert!(ProfileStatus::Failed.is_terminal());
    assert!(!ProfileStatus::Crawling.is_terminal());
    assert!(!ProfileStatus::Pending.is_terminal());
    assert!(!ProfileStatus::Error.is_terminal());
}

#[test]
fn complete_result_fixture() {
    let body = r#"{"status":"Complete","profiles":[{"scenario_name":"login","status":"ok","time_in_ms":1200,"profile_url":"https://x/y"}]}"#;
    let r = parse_profile_result(body).unwrap();
    assert_eq!(r.get_status(), ProfileStatus::Complete);
    assert_eq!(r.profiles.len(), 1);
    let p = &r.profiles[0];
    assert_eq!(p.get_scenario_name(), "login");
    assert_eq!(p.get_status(), "ok");
    assert_eq!(p.get_time_in_ms(), 1200);
    assert_eq!(p.profile_url, "https://x/y");
}

#[test]
fn profiles_not_an_array_fall_back_to_empty() {
    let r = parse_profile_result(r#"{"status":"Complete","profiles":"not-an-array"}"#).unwrap();
    assert_eq!(r.get_status(), ProfileStatus::Complete);
    assert!(r.profiles.is_empty());
}

#[test]
fn one_bad_profile_empties_the_list() {
    let body = r#"{"status":"Failed","profiles":[{"scenario_name":"a","status":"ok","time_in_ms":1,"profile_url":"u"},{"scenario_name":"b","status":"ok","time_in_ms":-5,"profile_url":"u"}]}"#;
    let r = parse_profile_result(body).unwrap();
    assert_eq!(r.get_status(), ProfileStatus::Failed);
    assert!(r.profiles.is_empty());
}

#[test]
fn failed_result_keeps_profiles_in_order() {
    let body = r#"{"status":"Failed","profiles":[{"scenario_name":"a","status":"ok","time_in_ms":1,"profile_url":"u1"},{"profile_url":"u2","time_in_ms":2,"status":"bad","scenario_name":"b","extra":true}]}"#;
    let r = parse_profile_result(body).unwrap();
    assert_eq!(r.get_status(), ProfileStatus::Failed);
    assert_eq!(r.profiles.len(), 2);
    assert_eq!(r.profiles[0].scenario_name, "a");
    assert_eq!(r.profiles[1].scenario_name, "b");
    assert_eq!(r.profiles[1].time_in_ms, 2);
    assert_eq!(r.profiles[1].profile_url, "u2");
}

#[test]
fn unfinished_results_hold_no_profiles() {
    let profiles = r#"[{"scenario_name":"a","status":"ok","time_in_ms":1,"profile_url":"u"}]"#;
    for (name, status) in [
        ("Pending", ProfileStatus::Pending),
        ("Crawling", ProfileStatus::Crawling),
        ("Queued", ProfileStatus::Error),
    ] {
        let body = format!(r#"{{"status":"{}","profiles":{}}}"#, name, profiles);
        let r = parse_profile_result(&body).unwrap();
        assert_eq!(r.get_status(), status);
        assert!(r.profiles.is_empty());
    }
}

#[test]
fn missing_or_non_string_status_is_error() {
    let r = parse_profile_result(r#"{"profiles":[]}"#).unwrap();
    assert_eq!(r.get_status(), ProfileStatus::Error);
    let r = parse_profile_result(r#"{"status":3}"#).unwrap();
    assert_eq!(r.get_status(), ProfileStatus::Error);
    let r = parse_profile_result(r#"["Complete"]"#).unwrap();
    assert_eq!(r.get_status(), ProfileStatus::Error);
}

#[test]
fn non_json_result_body_is_none() {
    assert!(parse_profile_result("<html>busy</html>").is_none());
    assert!(parse_profile_result("").is_none());
    assert!(parse_profile_result(r#"{"status":"Complete""#).is_none());
}

#[test]
fn profile_needs_every_field() {
    assert!(parse_profile(r#"{"scenario_name":"a","status":"ok","time_in_ms":1}"#).is_none());
    assert!(parse_profile(r#"{"scenario_name":"a","status":"ok","time_in_ms":1.5,"profile_url":"u"}"#).is_none());
    assert!(parse_profile(r#"{"scenario_name":7,"status":"ok","time_in_ms":1,"profile_url":"u"}"#).is_none());
    let p = parse_profile(r#"{"scenario_name":"a","status":"ok","time_in_ms":18446744073709551615,"profile_url":"u"}"#).unwrap();
    assert_eq!(p.time_in_ms, u64::MAX);
}

#[test]
fn scenario_fixture() {
    let body = r#"{"scenarios":[{"name":"a","time":500,"screenshots":["u1"],"thumbnail_screenshots":["t1"]}]}"#;
    let s = parse_profile_scenarios(body).unwrap();
    let list = s.get_scenarios();
    assert_eq!(list.len(), 1);
    assert_eq!(list[0].get_name(), "a");
    assert_eq!(list[0].get_time(), Duration::from_millis(500));
    assert_eq!(list[0].get_time().as_millis(), 500);
    assert_eq!(list[0].get_time_in_ms(), 500);
    assert_eq!(list[0].get_screenshots(), &vec!["u1".to_string()]);
    assert_eq!(list[0].get_thumbnail_screenshots(), &vec!["t1".to_string()]);
}

#[test]
fn scenario_lists_may_differ_in_length() {
    let body = r#"{"scenarios":[{"name":"a","time":0,"screenshots":["u1","u2"],"thumbnail_screenshots":[]},{"name":"b","time":7,"screenshots":[],"thumbnail_screenshots":["t"]}]}"#;
    let s = parse_profile_scenarios(body).unwrap();
    let list = s.get_scenarios();
    assert_eq!(list.len(), 2);
    assert_eq!(list[0].get_screenshots().len(), 2);
    assert!(list[0].get_thumbnail_screenshots().is_empty());
    assert_eq!(list[1].get_name(), "b");
    assert_eq!(list[1].get_time(), Duration::from_millis(7));
}

#[test]
fn scenario_parse_is_strict() {
    let bad_element = r#"{"scenarios":[{"name":"a","time":1,"screenshots":[],"thumbnail_screenshots":[]},{"name":"b","time":1,"screenshots":[3],"thumbnail_screenshots":[]}]}"#;
    assert!(parse_profile_scenarios(bad_element).is_none());
    assert!(parse_profile_scenarios(r#"{"scenarios":"none"}"#).is_none());
    assert!(parse_profile_scenarios(r#"{"other":[]}"#).is_none());
    assert!(parse_profile_scenarios("not json").is_none());
    let missing_field = r#"{"scenarios":[{"name":"a","time":1,"screenshots":[]}]}"#;
    assert!(parse_profile_scenarios(missing_field).is_none());
    assert!(parse_profile_scenarios(r#"{"scenarios":[]}"#).unwrap().get_scenarios().is_empty());
}

#[test]
fn json_reading() {
    assert!(read_node("nope").is_none());
    assert!(read_node("null").is_some());
    assert_eq!(read_field(r#"{"a":{"b":[1,2]},"c":1}"#, "a"), Some(r#"{"b":[1,2]}"#.to_string()));
    assert_eq!(read_field(r#"{"a":1}"#, "b"), None);
    assert_eq!(read_field(r#"[1]"#, "a"), None);
    assert_eq!(read_u64("42"), Some(42));
    assert_eq!(read_u64("-1"), None);
    assert_eq!(read_u64("4.5"), None);
    assert_eq!(read_u64(r#""42""#), None);
    assert_eq!(read_strings(r#"["x","y"]"#), Some(vec!["x".to_string(), "y".to_string()]));
    assert_eq!(read_strings(r#"["x",1]"#), None);
}
