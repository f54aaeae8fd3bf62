use nimbledroid::parse::{parse_profile_result, parse_profile_scenarios};
use nimbledroid::ProfileStatus;

#[test]
fn status_text() {
    assert_eq!(ProfileStatus::Crawling.to_text(), "Crawling");
    assert_eq!(ProfileStatus::Pending.to_text(), "Pending");
    assert_eq!(ProfileStatus::Complete.to_text(), "Complete");
    assert_eq!(ProfileStatus::Failed.to_text(), "Failed");
    assert_eq!(ProfileStatus::Error.to_text(), "Error");
}

#[test]
fn profile_and_result_text() {
    let body = r#"{"status":"Complete","profiles":[{"scenario_name":"login","status":"ok","time_in_ms":1200,"profile_url":"https://x/y"}]}"#;
    let r = parse_profile_result(body).unwrap();
    let profile = "scenario_name: login\nstatus: ok\ntime_in_ms: 1200\nprofile_url: https://x/y\n";
    assert_eq!(r.profiles[0].to_text(), profile);
    assert_eq!(r.to_text(), format!("status: Complete\n{}\n\n", profile));
    let pending = parse_profile_result(r#"{"status":"Pending"}"#).unwrap();
    assert_eq!(pending.to_text(), "status: Pending\n\n");
}

#[test]
fn scenario_text() {
    let body = r#"{"scenarios":[{"name":"a","time":500,"screenshots":["u1","u2"],"thumbnail_screenshots":["t1"]}]}"#;
    let s = parse_profile_scenarios(body).unwrap();
    assert_eq!(
        s.get_scenarios()[0].to_text(),
        "name: a\ntime: 500\nScreenshots:\nu1\nu2\nThumbnail Screenshots:\nt1\n"
    );
}
