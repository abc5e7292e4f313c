use honeybee::listen::{contains_name, Listen};

#[test]
fn exclude_rule_matches_other_payloads() {
    let rule = Listen::Exclude("camera", &["video_loss"]);
    assert!(!rule.is_listening("camera", "video_loss"));
    assert!(rule.is_listening("camera", "publish"));
    assert!(rule.is_listening("camera", ""));
    assert!(!rule.is_listening("dms", "publish"));
    assert!(!rule.is_listening("dms", "video_loss"));
}

#[test]
fn include_rule_matches_only_listed_payloads() {
    let rule = Listen::Include("parking_area", &["time_stamp", "time_stamp_static"]);
    assert!(rule.is_listening("parking_area", "time_stamp"));
    assert!(rule.is_listening("parking_area", "time_stamp_static"));
    assert!(!rule.is_listening("parking_area", "capacity"));
    assert!(!rule.is_listening("parking_area", ""));
    assert!(!rule.is_listening("dms", "time_stamp"));
}

#[test]
fn never_any_and_either_channel() {
    assert!(!Listen::Nope.is_listening("camera", ""));
    assert!(!Listen::Nope.is_listening("", ""));
    assert!(Listen::All("beacon").is_listening("beacon", "anything"));
    assert!(!Listen::All("beacon").is_listening("beacon_state", "anything"));
    let two = Listen::Two("font", "glyph");
    assert!(two.is_listening("font", "x"));
    assert!(two.is_listening("glyph", ""));
    assert!(!two.is_listening("graphic", ""));
}

#[test]
fn excluded_payload_predicate_inverts_for_excluding_rules_only() {
    let rule = Listen::Exclude("gps", &["latest_poll", "lat", "lon"]);
    assert!(rule.is_listening_payload("gps", "lat"));
    assert!(!rule.is_listening_payload("gps", "notes"));
    assert!(!rule.is_listening_payload("camera", "lat"));
    let inc = Listen::Include("dms", &["msg_current"]);
    assert!(inc.is_listening_payload("dms", "msg_current"));
    assert!(!inc.is_listening_payload("dms", "msg_user"));
    assert!(Listen::All("road").is_listening_payload("road", "x"));
    assert!(!Listen::Nope.is_listening_payload("road", "x"));
    assert!(Listen::Two("a", "b").is_listening_payload("b", ""));
}

#[test]
fn channel_names_of_each_rule() {
    assert_eq!(Listen::Nope.channel_names(), Vec::<&str>::new());
    assert_eq!(Listen::All("road").channel_names(), vec!["road"]);
    assert_eq!(Listen::Include("dms", &["a"]).channel_names(), vec!["dms"]);
    assert_eq!(Listen::Exclude("dms", &["a"]).channel_names(), vec!["dms"]);
    assert_eq!(Listen::Two("font", "glyph").channel_names(), vec!["font", "glyph"]);
}

#[test]
fn names_are_compared_whole() {
    let names = ["time_stamp", "lat"];
    assert!(contains_name(&names, "lat"));
    assert!(!contains_name(&names, "la"));
    assert!(!contains_name(&names, "latitude"));
    assert!(!contains_name(&[], "lat"));
}
