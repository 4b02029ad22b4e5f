use semi_xmlrpc_tester::logging::{debug, error, info, level_name, log_enabled, warning, Level};
use semi_xmlrpc_tester::lookup::{
    exists_kiwi_image, exists_kiwi_profile, exists_system_group, get_system_id,
    has_buildhost_entitlement, image_outcome, name_matches, status_highstate, status_kiwi_image,
};
use semi_xmlrpc_tester::poller::PollOutcome;
use semi_xmlrpc_tester::session::SessionError;
use semi_xmlrpc_tester::wire::WireValue;

fn s(x: &str) -> WireValue {
    WireValue::Str(x.to_string())
}

fn item(fields: &[(&str, WireValue)]) -> WireValue {
    WireValue::Struct(fields.iter().map(|(k, v)| (k.to_string(), dup(v))).collect())
}

fn dup(v: &WireValue) -> WireValue {
    match v {
        WireValue::Str(x) => WireValue::Str(x.clone()),
        WireValue::Int(i) => WireValue::Int(*i),
        WireValue::Bool(b) => WireValue::Bool(*b),
        WireValue::DateTime(x) => WireValue::DateTime(x.clone()),
        WireValue::List(l) => WireValue::List(l.iter().map(dup).collect()),
        WireValue::Struct(m) => WireValue::Struct(m.iter().map(|(k, v)| (k.clone(), dup(v))).collect()),
    }
}

fn groups(names: &[&str]) -> WireValue {
    WireValue::List(names.iter().map(|n| item(&[("id", WireValue::Int(1)), ("name", s(n))])).collect())
}

#[test]
fn group_lookup() {
    assert_eq!(exists_system_group("TERMINALS", &groups(&["SERVERS", "TERMINALS"])).unwrap(), true);
    assert_eq!(exists_system_group("HW", &groups(&["SERVERS", "TERMINALS"])).unwrap(), false);
    assert_eq!(exists_system_group("HW", &groups(&[])).unwrap(), false);
}

#[test]
fn group_lookup_matches_substrings() {
    assert!(exists_system_group("SERVERS", &groups(&["OLD-SERVERS-2"])).unwrap());
    assert!(name_matches("OLD-SERVERS-2", "SERVERS"));
    assert!(!name_matches("SERV", "SERVERS"));
    assert!(name_matches("anything", ""));
}

#[test]
fn malformed_listing_is_an_unexpected_shape() {
    match exists_system_group("x", &WireValue::Int(3)) {
        Err(SessionError::UnexpectedShape { method, .. }) => assert_eq!(method, "systemgroup.listAllGroups"),
        other => panic!("expected UnexpectedShape, got {:?}", other),
    }
    let bad = WireValue::List(vec![item(&[("id", WireValue::Int(1))])]);
    assert!(exists_system_group("x", &bad).is_err());
    // the scan stops at the first match, before the malformed item
    let partly = WireValue::List(vec![item(&[("name", s("x"))]), WireValue::Int(4)]);
    assert_eq!(exists_system_group("x", &partly).unwrap(), true);
}

#[test]
fn profile_and_image_lookup() {
    let profiles = WireValue::List(vec![item(&[("label", s("POS_Image_JeOS7"))])]);
    assert!(exists_kiwi_profile("POS_Image", &profiles).unwrap());
    assert!(!exists_kiwi_profile("Other", &profiles).unwrap());
    let images = WireValue::List(vec![
        item(&[("name", s("unrelated")), ("id", WireValue::Int(3))]),
        item(&[("name", s("POS_Image_JeOS7")), ("id", WireValue::Int(12))]),
    ]);
    assert_eq!(exists_kiwi_image("POS_Image", &images).unwrap(), Some(12));
    assert_eq!(exists_kiwi_image("Nope", &images).unwrap(), None);
    let no_id = WireValue::List(vec![item(&[("name", s("POS_Image"))])]);
    assert!(exists_kiwi_image("POS_Image", &no_id).is_err());
}

#[test]
fn system_id_from_reply() {
    let reply = WireValue::List(vec![item(&[("id", WireValue::Int(1000010000)), ("name", s("b"))])]);
    assert_eq!(get_system_id(&reply).unwrap(), 1000010000);
    assert!(get_system_id(&WireValue::List(vec![])).is_err());
    assert!(get_system_id(&s("x")).is_err());
}

#[test]
fn buildhost_entitlement() {
    let with = WireValue::List(vec![s("salt_entitled"), s("osimage_build_host")]);
    let without = WireValue::List(vec![s("salt_entitled")]);
    assert!(has_buildhost_entitlement(&with).unwrap());
    assert!(!has_buildhost_entitlement(&without).unwrap());
    assert!(has_buildhost_entitlement(&WireValue::List(vec![WireValue::Int(1)])).is_err());
}

fn event(id: i64, failed: i64, ok: i64) -> WireValue {
    item(&[
        ("id", WireValue::Int(id)),
        ("failed_count", WireValue::Int(failed)),
        ("successful_count", WireValue::Int(ok)),
    ])
}

#[test]
fn highstate_status_table() {
    let events = WireValue::List(vec![event(1, 0, 0), event(7, 0, 1), event(8, 1, 0), event(9, 2, 0)]);
    assert_eq!(status_highstate(&events, 7).unwrap(), PollOutcome::Succeeded);
    assert_eq!(status_highstate(&events, 8).unwrap(), PollOutcome::Failed);
    assert_eq!(status_highstate(&events, 9).unwrap(), PollOutcome::Failed);
    assert_eq!(status_highstate(&events, 1).unwrap(), PollOutcome::Pending);
    assert_eq!(status_highstate(&events, 42).unwrap(), PollOutcome::Pending);
    assert!(status_highstate(&WireValue::List(vec![item(&[("id", WireValue::Int(7))])]), 7).is_err());
}

#[test]
fn image_status_table() {
    let details = item(&[("buildStatus", s("picked up"))]);
    assert_eq!(status_kiwi_image(&details).unwrap(), "picked up");
    assert!(status_kiwi_image(&item(&[])).is_err());
    assert_eq!(image_outcome("queued"), PollOutcome::Pending);
    assert_eq!(image_outcome("picked up"), PollOutcome::Pending);
    assert_eq!(image_outcome("completed"), PollOutcome::Succeeded);
    assert_eq!(image_outcome("failed"), PollOutcome::Failed);
    assert_eq!(image_outcome("exploded"), PollOutcome::Unknown);
}

#[test]
fn log_levels() {
    assert!(log_enabled("INFO", Level::Info));
    assert!(log_enabled("INFO", Level::Error));
    assert!(log_enabled("INFO", Level::Warning));
    assert!(!log_enabled("INFO", Level::Debug));
    assert!(log_enabled("DEBUG", Level::Debug));
    assert!(!log_enabled("NO", Level::Error));
    assert_eq!(level_name(Level::Warning), "WARNING");
}

#[test]
fn log_records() {
    let r = info("hello".to_string());
    assert_eq!(r.level, Level::Info);
    assert_eq!(r.text, "hello");
    assert_eq!(warning("w".to_string()).level, Level::Warning);
    assert_eq!(error("e".to_string()).level, Level::Error);
    assert_eq!(debug("d".to_string()).level, Level::Debug);
}
