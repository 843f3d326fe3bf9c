use nss_http::config::Config;
use nss_http::lookup::{plan_lookup, LookupPlan};
use nss_http::privilege::mode_has_suid;
use nss_http::request::{build_url, EntityKind, LookupFilter};
use nss_http::text::u32_to_decimal;

fn cfg_with_endpoint() -> Config {
    Config {
        endpoint: Some("http://directory.example".to_string()),
        timeout_secs: 30,
        debug: false,
    }
}

fn cfg_without_endpoint() -> Config {
    Config { endpoint: None, timeout_secs: 30, debug: false }
}

fn all_queries() -> Vec<(EntityKind, LookupFilter)> {
    vec![
        (EntityKind::Passwd, LookupFilter::All),
        (EntityKind::Passwd, LookupFilter::ByUid(1005)),
        (EntityKind::Passwd, LookupFilter::ByName("test".to_string())),
        (EntityKind::Group, LookupFilter::All),
        (EntityKind::Group, LookupFilter::ByGid(1005)),
        (EntityKind::Group, LookupFilter::ByName("test".to_string())),
        (EntityKind::Shadow, LookupFilter::All),
        (EntityKind::Shadow, LookupFilter::ByName("test".to_string())),
    ]
}

#[test]
fn absent_endpoint_denies_every_operation() {
    let cfg = cfg_without_endpoint();
    for (kind, filter) in all_queries() {
        let plan = plan_lookup(&cfg, kind, &filter, true);
        assert!(matches!(plan, LookupPlan::Deny));
        let plan = plan_lookup(&cfg, kind, &filter, false);
        assert!(matches!(plan, LookupPlan::Deny));
    }
}

#[test]
fn shadow_without_privilege_is_denied_before_any_request() {
    let cfg = cfg_with_endpoint();
    let plan = plan_lookup(&cfg, EntityKind::Shadow, &LookupFilter::All, false);
    assert!(matches!(plan, LookupPlan::Deny));
    let plan = plan_lookup(
        &cfg,
        EntityKind::Shadow,
        &LookupFilter::ByName("test".to_string()),
        false,
    );
    assert!(matches!(plan, LookupPlan::Deny));
}

#[test]
fn shadow_with_privilege_is_fetched() {
    let cfg = cfg_with_endpoint();
    let plan = plan_lookup(&cfg, EntityKind::Shadow, &LookupFilter::All, true);
    match plan {
        LookupPlan::Fetch { url, timeout_secs } => {
            assert_eq!(url, "http://directory.example/shadow");
            assert_eq!(timeout_secs, 30);
        }
        LookupPlan::Deny => panic!("privileged shadow lookup was denied"),
    }
}

#[test]
fn unprivileged_passwd_and_group_are_still_fetched() {
    let cfg = cfg_with_endpoint();
    let plan = plan_lookup(&cfg, EntityKind::Passwd, &LookupFilter::ByUid(1005), false);
    match plan {
        LookupPlan::Fetch { url, .. } => {
            assert_eq!(url, "http://directory.example/passwd?uid=1005")
        }
        LookupPlan::Deny => panic!("unprivileged passwd lookup was denied"),
    }
    let plan = plan_lookup(&cfg, EntityKind::Group, &LookupFilter::ByGid(0), false);
    match plan {
        LookupPlan::Fetch { url, .. } => assert_eq!(url, "http://directory.example/group?gid=0"),
        LookupPlan::Deny => panic!("unprivileged group lookup was denied"),
    }
}

#[test]
fn plan_carries_configured_timeout() {
    let mut cfg = cfg_with_endpoint();
    cfg.timeout_secs = 7;
    let plan = plan_lookup(&cfg, EntityKind::Passwd, &LookupFilter::All, false);
    match plan {
        LookupPlan::Fetch { timeout_secs, .. } => assert_eq!(timeout_secs, 7),
        LookupPlan::Deny => panic!("lookup was denied"),
    }
}

#[test]
fn url_shapes_for_each_filter() {
    let e = "http://h:8000";
    assert_eq!(build_url(e, EntityKind::Passwd, &LookupFilter::All), "http://h:8000/passwd");
    assert_eq!(
        build_url(e, EntityKind::Passwd, &LookupFilter::ByUid(1005)),
        "http://h:8000/passwd?uid=1005"
    );
    assert_eq!(
        build_url(e, EntityKind::Group, &LookupFilter::ByGid(4294967295)),
        "http://h:8000/group?gid=4294967295"
    );
    assert_eq!(
        build_url(e, EntityKind::Shadow, &LookupFilter::ByName("test".to_string())),
        "http://h:8000/shadow?name=test"
    );
}

#[test]
fn empty_name_filter_is_sent_as_empty_query_value() {
    let url = build_url(
        "http://h",
        EntityKind::Passwd,
        &LookupFilter::ByName(String::new()),
    );
    assert_eq!(url, "http://h/passwd?name=");
}

#[test]
fn decimal_rendering_is_plain_unpadded() {
    assert_eq!(u32_to_decimal(0), "0");
    assert_eq!(u32_to_decimal(7), "7");
    assert_eq!(u32_to_decimal(1005), "1005");
    assert_eq!(u32_to_decimal(u32::MAX), "4294967295");
}

#[test]
fn suid_bit_detection() {
    assert!(mode_has_suid(0o104755));
    assert!(mode_has_suid(0o4000));
    assert!(!mode_has_suid(0o100755));
    assert!(!mode_has_suid(0o2000));
    assert!(!mode_has_suid(0));
}
