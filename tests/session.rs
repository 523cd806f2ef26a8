use ibkrrusty::session::{
    default_headers, handle_no_content_response, plan, read_reply, HttpMethod, Operation,
};
use ibkrrusty::{
    AuthStatusResponse, ClientError, DecodeFailure, Features, HmdsInitResponse, InitSessionRequest,
    InitSessionResponse, JsonValue, LogoutResponse, RequestFailure, SsoValidateResponse,
    TickleResponse,
};

fn obj(entries: Vec<(&str, JsonValue)>) -> JsonValue {
    JsonValue::Object(entries.into_iter().map(|(k, v)| (k.to_string(), v)).collect())
}

fn s(text: &str) -> JsonValue {
    JsonValue::Str(text.to_string())
}

fn status_body(authenticated: bool) -> JsonValue {
    obj(vec![
        ("authenticated", JsonValue::Bool(authenticated)),
        ("connected", JsonValue::Bool(false)),
        ("competing", JsonValue::Bool(false)),
        ("message", s("")),
        ("MAC", s("...")),
    ])
}

fn tickle_body(expires: i64) -> JsonValue {
    obj(vec![
        ("session", s("abc123")),
        ("ssoExpires", JsonValue::Int(expires)),
        ("collission", JsonValue::Bool(false)),
        ("userId", JsonValue::Int(42)),
    ])
}

#[test]
fn status_unauthenticated_reply_decodes() {
    let r = read_reply::<AuthStatusResponse>(200, String::new(), Some(status_body(false)));
    let st = r.unwrap();
    assert!(!st.authenticated);
    assert!(!st.connected);
    assert!(!st.competing);
    assert_eq!(st.message, "");
    assert_eq!(st.mac, "...");
    assert!(st.server_info.is_none());
    assert!(st.hardware_info.is_none());
    assert!(st.fail.is_none());
}

#[test]
fn status_with_server_info_decodes() {
    let body = obj(vec![
        ("authenticated", JsonValue::Bool(true)),
        ("connected", JsonValue::Bool(true)),
        ("competing", JsonValue::Bool(false)),
        ("message", s("ok")),
        ("MAC", s("AA:BB")),
        ("serverInfo", obj(vec![("serverName", s("JifN1")), ("serverVersion", s("Build 10.25"))])),
        ("fail", JsonValue::Null),
        ("extra", JsonValue::Array(vec![JsonValue::Int(1)])),
    ]);
    let st = read_reply::<AuthStatusResponse>(200, String::new(), Some(body)).unwrap();
    assert!(st.authenticated);
    let info = st.server_info.unwrap();
    assert_eq!(info.server_name, "JifN1");
    assert_eq!(info.server_version, "Build 10.25");
    assert!(st.fail.is_none());
}

#[test]
fn init_request_always_publishes() {
    let req = InitSessionRequest::new(true);
    assert!(req.publish);
    assert!(req.compete);
    assert_eq!(req.to_json(), "{\"publish\":true,\"compete\":true}");
    let req = InitSessionRequest::new(false);
    assert!(req.publish);
    assert!(!req.compete);
    assert_eq!(req.to_json(), "{\"publish\":true,\"compete\":false}");
}

#[test]
fn init_plan_sends_publish_and_compete() {
    let p = plan(Operation::Init { compete: true });
    assert_eq!(p.method, HttpMethod::Post);
    assert_eq!(p.path, "iserver/auth/ssodh/init");
    assert_eq!(p.body.unwrap(), "{\"publish\":true,\"compete\":true}");
}

#[test]
fn plans_of_every_operation() {
    let cases = vec![
        (Operation::Status, HttpMethod::Post, "iserver/auth/status", Some("{}")),
        (Operation::InitHistorical, HttpMethod::Post, "hmds/auth/init", Some("{}")),
        (Operation::ValidateSso, HttpMethod::Get, "sso/validate", None),
        (Operation::Tickle, HttpMethod::Post, "tickle", Some("{}")),
        (Operation::Logout, HttpMethod::Post, "logout", Some("{}")),
    ];
    for (op, method, path, body) in cases {
        let p = plan(op);
        assert_eq!(p.method, method);
        assert_eq!(p.path, path);
        assert_eq!(p.body.as_deref(), body);
    }
}

#[test]
fn identifying_header_only() {
    let h = default_headers();
    assert_eq!(h.len(), 1);
    assert_eq!(h[0].0, "User-Agent");
    assert_eq!(h[0].1, "ibkrrusty/0.1.0");
}

#[test]
fn error_status_is_request_error_without_decoding() {
    for code in [400u16, 401, 404, 500, 503, 599] {
        let r = read_reply::<AuthStatusResponse>(code, "denied".to_string(), Some(status_body(true)));
        match r {
            Err(ClientError::RequestError(RequestFailure::Status { code: c, body })) => {
                assert_eq!(c, code);
                assert_eq!(body, "denied");
            }
            _ => panic!("expected a status failure"),
        }
    }
    let r = read_reply::<TickleResponse>(500, "oops".to_string(), None);
    assert!(matches!(r, Err(ClientError::RequestError(RequestFailure::Status { code: 500, .. }))));
}

#[test]
fn non_error_statuses_are_read() {
    for code in [200u16, 201, 302, 399, 600] {
        let r = read_reply::<LogoutResponse>(code, String::new(), Some(obj(vec![("status", JsonValue::Bool(true))])));
        assert!(r.unwrap().status);
    }
}

#[test]
fn missing_required_member_is_decoding_error() {
    let body = obj(vec![
        ("authenticated", JsonValue::Bool(false)),
        ("connected", JsonValue::Bool(false)),
        ("competing", JsonValue::Bool(false)),
        ("message", s("")),
    ]);
    let r = read_reply::<AuthStatusResponse>(200, String::new(), Some(body));
    assert!(matches!(r, Err(ClientError::DecodingError(DecodeFailure::Shape))));
    let r = read_reply::<HmdsInitResponse>(200, String::new(), Some(obj(vec![])));
    assert!(matches!(r, Err(ClientError::DecodingError(DecodeFailure::Shape))));
    let r = read_reply::<TickleResponse>(200, String::new(), Some(obj(vec![("session", s("x"))])));
    assert!(matches!(r, Err(ClientError::DecodingError(DecodeFailure::Shape))));
}

#[test]
fn mistyped_member_is_decoding_error() {
    let body = obj(vec![("status", s("true"))]);
    let r = read_reply::<LogoutResponse>(200, String::new(), Some(body));
    assert!(matches!(r, Err(ClientError::DecodingError(DecodeFailure::Shape))));
    let r = read_reply::<LogoutResponse>(200, String::new(), Some(JsonValue::Bool(true)));
    assert!(matches!(r, Err(ClientError::DecodingError(DecodeFailure::Shape))));
}

#[test]
fn body_that_is_not_json_is_decoding_error() {
    let r = read_reply::<LogoutResponse>(200, "<html>".to_string(), None);
    assert!(matches!(r, Err(ClientError::DecodingError(DecodeFailure::Syntax))));
}

#[test]
fn tickle_expiry_reported_verbatim() {
    let first = read_reply::<TickleResponse>(200, String::new(), Some(tickle_body(569_000))).unwrap();
    let second = read_reply::<TickleResponse>(200, String::new(), Some(tickle_body(568_999))).unwrap();
    assert_eq!(first.sso_expires, 569_000);
    assert_eq!(second.sso_expires, 568_999);
    assert!(second.sso_expires < first.sso_expires);
    assert_eq!(first.session, "abc123");
    assert_eq!(first.user_id, 42);
    assert!(first.hmds.is_none());
    assert!(first.iserver.is_none());
    let near = read_reply::<TickleResponse>(200, String::new(), Some(tickle_body(1))).unwrap();
    assert_eq!(near.sso_expires, 1);
}

#[test]
fn tickle_with_embedded_parts() {
    let body = obj(vec![
        ("session", s("abc")),
        ("ssoExpires", JsonValue::Int(0)),
        ("collission", JsonValue::Bool(true)),
        ("userId", JsonValue::Int(7)),
        ("hmds", obj(vec![("error", s("no bridge"))])),
        ("iserver", obj(vec![("authStatus", status_body(true))])),
    ]);
    let t = read_reply::<TickleResponse>(200, String::new(), Some(body)).unwrap();
    assert!(t.collission);
    assert_eq!(t.hmds.unwrap().error.unwrap(), "no bridge");
    assert!(t.iserver.unwrap().auth_status.authenticated);
}

#[test]
fn tickle_with_fractional_expiry_is_decoding_error() {
    let body = obj(vec![
        ("session", s("abc")),
        ("ssoExpires", JsonValue::OtherNumber),
        ("collission", JsonValue::Bool(true)),
        ("userId", JsonValue::Int(7)),
    ]);
    let r = read_reply::<TickleResponse>(200, String::new(), Some(body));
    assert!(matches!(r, Err(ClientError::DecodingError(DecodeFailure::Shape))));
}

#[test]
fn logout_then_status_follows_gateway() {
    let out = read_reply::<LogoutResponse>(200, String::new(), Some(obj(vec![("status", JsonValue::Bool(true))])));
    assert!(out.unwrap().status);
    let st = read_reply::<AuthStatusResponse>(200, String::new(), Some(status_body(true))).unwrap();
    assert!(st.authenticated);
}

#[test]
fn init_and_hmds_replies_decode() {
    let body = obj(vec![
        ("authenticated", JsonValue::Bool(true)),
        ("connected", JsonValue::Bool(true)),
        ("competing", JsonValue::Bool(false)),
        ("message", s("")),
        ("MAC", s("00:11")),
    ]);
    let r: InitSessionResponse = read_reply(200, String::new(), Some(body)).unwrap();
    assert!(r.authenticated && r.connected && !r.competing);
    assert_eq!(r.mac, "00:11");
    let h: HmdsInitResponse = read_reply(200, String::new(), Some(obj(vec![("authenticated", JsonValue::Bool(false))]))).unwrap();
    assert!(!h.authenticated);
}

fn sso_entries(login_type: i64) -> Vec<(&'static str, JsonValue)> {
    vec![
        ("USER_ID", JsonValue::Int(123)),
        ("USER_NAME", s("trader")),
        ("RESULT", JsonValue::Bool(false)),
        ("AUTH_TIME", JsonValue::Int(1_700_000_000_000)),
        ("SF_ENABLED", JsonValue::Bool(false)),
        ("IS_FREE_TRIAL", JsonValue::Bool(false)),
        ("CREDENTIAL", s("trader")),
        ("IP", s("127.0.0.1")),
        ("EXPIRES", JsonValue::Int(415_000)),
        ("LANDING_APP", s("UNIVERSAL")),
        ("IS_MASTER", JsonValue::Bool(true)),
        ("LAST_ACCESSED", JsonValue::Int(1_700_000_000_500)),
        ("LOGIN_TYPE", JsonValue::Int(login_type)),
    ]
}

#[test]
fn sso_reply_decodes() {
    let mut e = sso_entries(2);
    e.push((
        "FEATURES",
        obj(vec![
            ("env", s("PROD")),
            ("wlms", JsonValue::Bool(true)),
            ("realtime", JsonValue::Bool(true)),
            ("bond", JsonValue::Bool(false)),
            ("optionChains", JsonValue::Bool(true)),
            ("calendar", JsonValue::Bool(false)),
            ("newMf", JsonValue::Bool(true)),
        ]),
    ));
    e.push(("REGION", s("NJ")));
    let r: SsoValidateResponse = read_reply(200, String::new(), Some(obj(e))).unwrap();
    assert_eq!(r.user_id, 123);
    assert!(!r.result);
    assert_eq!(r.login_type, 2);
    assert!(r.is_master);
    assert_eq!(r.region.unwrap(), "NJ");
    assert!(r.qualified_for_mobile_auth.is_none());
    let f: Features = r.features.unwrap();
    assert_eq!(f.env, "PROD");
    assert!(f.option_chains && f.new_mf && !f.bond);
}

#[test]
fn sso_login_type_out_of_range_is_decoding_error() {
    let r = read_reply::<SsoValidateResponse>(200, String::new(), Some(obj(sso_entries(1 << 40))));
    assert!(matches!(r, Err(ClientError::DecodingError(DecodeFailure::Shape))));
}

#[test]
fn no_content_reply_is_success() {
    assert!(handle_no_content_response(204, String::new()).is_ok());
    assert!(handle_no_content_response(200, String::new()).is_ok());
    assert!(matches!(
        handle_no_content_response(401, "no".to_string()),
        Err(ClientError::RequestError(RequestFailure::Status { code: 401, .. }))
    ));
}

#[test]
fn member_lookup_takes_first_match() {
    let v = obj(vec![("a", JsonValue::Int(1)), ("a", JsonValue::Int(2))]);
    assert_eq!(v.int_member("a"), Some(1));
    assert_eq!(v.int_member("b"), None);
    assert_eq!(JsonValue::Null.int_member("a"), None);
    let n = obj(vec![("x", JsonValue::Null)]);
    assert!(n.is_absent("x"));
    assert!(n.is_absent("y"));
    assert_eq!(n.opt_bool_member("x"), Some(None));
    assert_eq!(obj(vec![("x", JsonValue::Int(3))]).opt_bool_member("x"), None);
}
