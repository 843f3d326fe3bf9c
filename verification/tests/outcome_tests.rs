use nss_http::lookup::{
    finish_group, finish_group_list, finish_passwd, finish_passwd_list, finish_shadow,
    finish_shadow_list, GroupResponse, GroupVectorResponse, PasswdResponse,
    PasswdVectorResponse, ShadowResponse, ShadowVectorResponse, WireEvent,
};
use nss_http::records::PasswdRecord;

fn response(status: u16, body: &str) -> WireEvent {
    WireEvent::Response { status, body: body.to_string() }
}

const STUB_PASSWD: &str = "{\"name\":\"test\",\"passwd\":\"x\",\"uid\":1005,\"gid\":1005,\"gecos\":\"Test Account\",\"dir\":\"/home/test\",\"shell\":\"/bin/bash\"}";

fn stub_record() -> PasswdRecord {
    PasswdRecord {
        name: "test".to_string(),
        passwd: "x".to_string(),
        uid: 1005,
        gid: 1005,
        gecos: "Test Account".to_string(),
        dir: "/home/test".to_string(),
        shell: "/bin/bash".to_string(),
    }
}

#[test]
fn stub_account_by_uid_round_trip() {
    let out = finish_passwd(response(200, STUB_PASSWD));
    assert_eq!(out, PasswdResponse::Found(stub_record()));
}

#[test]
fn remote_404_is_not_found_for_every_kind_and_shape() {
    let body = STUB_PASSWD;
    assert_eq!(finish_passwd(response(404, body)), PasswdResponse::NotFound);
    assert_eq!(finish_passwd_list(response(404, body)), PasswdVectorResponse::NotFound);
    assert_eq!(finish_group(response(404, body)), GroupResponse::NotFound);
    assert_eq!(finish_group_list(response(404, body)), GroupVectorResponse::NotFound);
    assert_eq!(finish_shadow(response(404, body)), ShadowResponse::NotFound);
    assert_eq!(finish_shadow_list(response(404, body)), ShadowVectorResponse::NotFound);
}

#[test]
fn timeout_is_transient_for_every_kind_and_shape() {
    assert_eq!(finish_passwd(WireEvent::TimedOut), PasswdResponse::TransientFailure);
    assert_eq!(finish_passwd_list(WireEvent::TimedOut), PasswdVectorResponse::TransientFailure);
    assert_eq!(finish_group(WireEvent::TimedOut), GroupResponse::TransientFailure);
    assert_eq!(finish_group_list(WireEvent::TimedOut), GroupVectorResponse::TransientFailure);
    assert_eq!(finish_shadow(WireEvent::TimedOut), ShadowResponse::TransientFailure);
    assert_eq!(finish_shadow_list(WireEvent::TimedOut), ShadowVectorResponse::TransientFailure);
}

#[test]
fn transport_error_is_unavailable_for_every_kind_and_shape() {
    let err = || WireEvent::TransportError("connection refused".to_string());
    assert_eq!(finish_passwd(err()), PasswdResponse::Unavailable);
    assert_eq!(finish_passwd_list(err()), PasswdVectorResponse::Unavailable);
    assert_eq!(finish_group(err()), GroupResponse::Unavailable);
    assert_eq!(finish_group_list(err()), GroupVectorResponse::Unavailable);
    assert_eq!(finish_shadow(err()), ShadowResponse::Unavailable);
    assert_eq!(finish_shadow_list(err()), ShadowVectorResponse::Unavailable);
}

#[test]
fn unparsable_body_is_unavailable() {
    assert_eq!(finish_passwd(response(200, "not json at all")), PasswdResponse::Unavailable);
    assert_eq!(finish_group(response(500, "{broken")), GroupResponse::Unavailable);
    assert_eq!(
        finish_shadow_list(response(200, "[{\"name\":")),
        ShadowVectorResponse::Unavailable
    );
}

#[test]
fn wrong_shape_body_is_unavailable() {
    // A valid JSON document that does not describe the expected record.
    assert_eq!(finish_passwd(response(200, "null")), PasswdResponse::Unavailable);
    assert_eq!(finish_passwd(response(200, "[1,2,3]")), PasswdResponse::Unavailable);
    assert_eq!(finish_passwd_list(response(200, STUB_PASSWD)), PasswdVectorResponse::Unavailable);
    assert_eq!(
        finish_passwd(response(200, "{\"name\":\"test\",\"passwd\":\"x\",\"uid\":1005}")),
        PasswdResponse::Unavailable
    );
}

#[test]
fn out_of_range_or_non_integer_id_is_unavailable() {
    // uid must be an integer that fits u32.
    let neg = "{\"name\":\"t\",\"passwd\":\"x\",\"uid\":-1,\"gid\":1,\"gecos\":\"\",\"dir\":\"/\",\"shell\":\"/\"}";
    assert_eq!(finish_passwd(response(200, neg)), PasswdResponse::Unavailable);
    let too_big = "{\"name\":\"t\",\"passwd\":\"x\",\"uid\":4294967296,\"gid\":1,\"gecos\":\"\",\"dir\":\"/\",\"shell\":\"/\"}";
    assert_eq!(finish_passwd(response(200, too_big)), PasswdResponse::Unavailable);
    let fractional = "{\"name\":\"t\",\"passwd\":\"x\",\"uid\":1005.5,\"gid\":1,\"gecos\":\"\",\"dir\":\"/\",\"shell\":\"/\"}";
    assert_eq!(finish_passwd(response(200, fractional)), PasswdResponse::Unavailable);
}

#[test]
fn largest_uid_decodes() {
    let body = "{\"name\":\"t\",\"passwd\":\"x\",\"uid\":4294967295,\"gid\":0,\"gecos\":\"\",\"dir\":\"/\",\"shell\":\"/\"}";
    match finish_passwd(response(200, body)) {
        PasswdResponse::Found(p) => {
            assert_eq!(p.uid, u32::MAX);
            assert_eq!(p.gid, 0);
        }
        other => panic!("expected a record, got {:?}", other),
    }
}

#[test]
fn non_404_error_status_still_decodes_body() {
    // Any status but 404 is a parse candidate, as the core defines it.
    let out = finish_passwd(response(500, STUB_PASSWD));
    assert_eq!(out, PasswdResponse::Found(stub_record()));
}

#[test]
fn group_record_decodes_with_members_in_order() {
    let body = "{\"name\":\"staff\",\"passwd\":\"x\",\"gid\":50,\"members\":[\"alice\",\"bob\"]}";
    match finish_group(response(200, body)) {
        GroupResponse::Found(g) => {
            assert_eq!(g.name, "staff");
            assert_eq!(g.gid, 50);
            assert_eq!(g.members, vec!["alice".to_string(), "bob".to_string()]);
        }
        other => panic!("expected a group, got {:?}", other),
    }
}

#[test]
fn group_with_empty_members_decodes() {
    let body = "{\"name\":\"empty\",\"passwd\":\"x\",\"gid\":9,\"members\":[]}";
    match finish_group(response(200, body)) {
        GroupResponse::Found(g) => assert_eq!(g.members.len(), 0),
        other => panic!("expected a group, got {:?}", other),
    }
}

#[test]
fn group_with_non_string_member_is_unavailable() {
    let body = "{\"name\":\"bad\",\"passwd\":\"x\",\"gid\":9,\"members\":[\"alice\",7]}";
    assert_eq!(finish_group(response(200, body)), GroupResponse::Unavailable);
}

#[test]
fn shadow_record_decodes_with_negative_day_counts() {
    let body = "{\"name\":\"test\",\"passwd\":\"$6$hash\",\"last_change\":19000,\"change_min_days\":0,\"change_max_days\":99999,\"change_warn_days\":7,\"change_inactive_days\":-1,\"expire_date\":-1,\"reserved\":0}";
    match finish_shadow(response(200, body)) {
        ShadowResponse::Found(s) => {
            assert_eq!(s.name, "test");
            assert_eq!(s.passwd, "$6$hash");
            assert_eq!(s.last_change, 19000);
            assert_eq!(s.change_max_days, 99999);
            assert_eq!(s.change_inactive_days, -1);
            assert_eq!(s.expire_date, -1);
            assert_eq!(s.reserved, 0);
        }
        other => panic!("expected a shadow record, got {:?}", other),
    }
}

#[test]
fn empty_list_decodes_to_empty_enumeration() {
    assert_eq!(finish_passwd_list(response(200, "[]")), PasswdVectorResponse::Found(vec![]));
    assert_eq!(finish_group_list(response(200, "[]")), GroupVectorResponse::Found(vec![]));
    assert_eq!(finish_shadow_list(response(200, "[]")), ShadowVectorResponse::Found(vec![]));
}
