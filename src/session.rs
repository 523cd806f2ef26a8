//! The session operations: what each call sends, and how its reply is read.
//!
//! Each operation is one request and one reply. The caller sends the request
//! that `plan` describes and hands the reply's status, text and parsed JSON
//! to `read_reply`; the gateway is the authority on session state, so nothing
//! here depends on earlier calls.
use vstd::prelude::*;
use crate::client::{ClientError, DecodeFailure, RequestFailure};
use crate::json::{JsonValue, bool_at, int_at, member};
use crate::models::{
    AuthStatusResponse, HmdsInitResponse, InitSessionRequest, InitSessionResponse, LogoutResponse,
    SsoValidateResponse, TickleResponse, WireDecode,
};

verus! {

/// The identifying header that every request carries.
pub const USER_AGENT_NAME: &'static str = "User-Agent";

/// The value of the identifying header.
pub const USER_AGENT_VALUE: &'static str = "ibkrrusty/0.1.0";

/// The HTTP method of a call.
#[derive(Debug, Clone, Copy, PartialEq, Eq, Structural)]
pub enum HttpMethod {
    Get,
    Post,
}

/// A session call.
#[derive(Debug, Clone, Copy, PartialEq, Eq, Structural)]
pub enum Operation {
    /// Report the authentication state of the session.
    Status,
    /// Start or claim a session; `compete` takes it over from another holder.
    Init { compete: bool },
    /// Enable the historical-data subsystem.
    InitHistorical,
    /// Validate the single-sign-on ticket.
    ValidateSso,
    /// Keep the session alive.
    Tickle,
    /// End the session.
    Logout,
}

/// The request that a call sends. A body, where there is one, is JSON.
#[derive(Debug, Clone)]
pub struct RequestPlan {
    pub method: HttpMethod,
    /// The path relative to the base address.
    pub path: String,
    pub body: Option<String>,
}

pub open spec fn method_of(op: Operation) -> HttpMethod {
    match op {
        Operation::ValidateSso => HttpMethod::Get,
        _ => HttpMethod::Post,
    }
}

pub open spec fn path_of(op: Operation) -> Seq<char> {
    match op {
        Operation::Status => "iserver/auth/status"@,
        Operation::Init { .. } => "iserver/auth/ssodh/init"@,
        Operation::InitHistorical => "hmds/auth/init"@,
        Operation::ValidateSso => "sso/validate"@,
        Operation::Tickle => "tickle"@,
        Operation::Logout => "logout"@,
    }
}

/// The JSON text of a boolean.
pub open spec fn bool_text(b: bool) -> Seq<char> {
    if b {
        "true"@
    } else {
        "false"@
    }
}

/// The JSON text of a session-initialization request.
pub open spec fn init_body(req: InitSessionRequest) -> Seq<char> {
    "{\"publish\":"@ + bool_text(req.publish) + ",\"compete\":"@ + bool_text(req.compete) + "}"@
}

/// The body of a call: none for a read, the request for an initialization,
/// an empty object otherwise.
pub open spec fn body_of(op: Operation) -> Option<Seq<char>> {
    match op {
        Operation::ValidateSso => None,
        Operation::Init { compete } => Some(
            init_body(InitSessionRequest { publish: true, compete }),
        ),
        _ => Some("{}"@),
    }
}

fn bool_json(b: bool) -> (r: &'static str)
    ensures
        r@ == bool_text(b),
{
    if b {
        "true"
    } else {
        "false"
    }
}

impl InitSessionRequest {
    /// The JSON text of this request, members in declaration order.
    pub fn to_json(&self) -> (r: String)
        ensures
            r@ == init_body(*self),
    {
        let mut r = String::from_str("{\"publish\":");
        r.append(bool_json(self.publish));
        r.append(",\"compete\":");
        r.append(bool_json(self.compete));
        r.append("}");
        r
    }
}

/// The request that `op` sends.
pub fn plan(op: Operation) -> (r: RequestPlan)
    ensures
        r.method == method_of(op),
        r.path@ == path_of(op),
        match r.body {
            Some(b) => body_of(op) == Some(b@),
            None => body_of(op) is None,
        },
{
    match op {
        Operation::Status => RequestPlan {
            method: HttpMethod::Post,
            path: String::from_str("iserver/auth/status"),
            body: Some(String::from_str("{}")),
        },
        Operation::Init { compete } => RequestPlan {
            method: HttpMethod::Post,
            path: String::from_str("iserver/auth/ssodh/init"),
            body: Some(InitSessionRequest::new(compete).to_json()),
        },
        Operation::InitHistorical => RequestPlan {
            method: HttpMethod::Post,
            path: String::from_str("hmds/auth/init"),
            body: Some(String::from_str("{}")),
        },
        Operation::ValidateSso => RequestPlan {
            method: HttpMethod::Get,
            path: String::from_str("sso/validate"),
            body: None,
        },
        Operation::Tickle => RequestPlan {
            method: HttpMethod::Post,
            path: String::from_str("tickle"),
            body: Some(String::from_str("{}")),
        },
        Operation::Logout => RequestPlan {
            method: HttpMethod::Post,
            path: String::from_str("logout"),
            body: Some(String::from_str("{}")),
        },
    }
}

/// The headers that every request carries: the identifying header alone.
pub fn default_headers() -> (r: Vec<(String, String)>)
    ensures
        r@.len() == 1,
        r@[0].0@ == USER_AGENT_NAME@,
        r@[0].1@ == USER_AGENT_VALUE@,
{
    let mut r: Vec<(String, String)> = Vec::new();
    r.push((String::from_str(USER_AGENT_NAME), String::from_str(USER_AGENT_VALUE)));
    r
}

/// Whether an HTTP status is a client or server error.
pub open spec fn is_error_status(code: u16) -> bool {
    400 <= code <= 599
}

/// The outcome of a reply with status `code`, text `body` and, where the text
/// is JSON, its parsed value `parsed`.
pub open spec fn reply_outcome<T: WireDecode>(
    code: u16,
    body: String,
    parsed: Option<JsonValue>,
) -> Result<T, ClientError> {
    if is_error_status(code) {
        Err(ClientError::RequestError(RequestFailure::Status { code, body }))
    } else {
        match parsed {
            None => Err(ClientError::DecodingError(DecodeFailure::Syntax)),
            Some(v) => match T::from_wire(v) {
                Some(t) => Ok(t),
                None => Err(ClientError::DecodingError(DecodeFailure::Shape)),
            },
        }
    }
}

/// Reads the reply to a call. An error status fails with `RequestError` and
/// the body is not read; otherwise the body is read as a `T`.
pub fn read_reply<T: WireDecode>(code: u16, body: String, parsed: Option<JsonValue>) -> (r: Result<
    T,
    ClientError,
>)
    ensures
        r == reply_outcome::<T>(code, body, parsed),
{
    if 400 <= code && code <= 599 {
        return Err(ClientError::RequestError(RequestFailure::Status { code, body }));
    }
    match parsed {
        None => Err(ClientError::DecodingError(DecodeFailure::Syntax)),
        Some(v) => match T::decode(&v) {
            Some(t) => Ok(t),
            None => Err(ClientError::DecodingError(DecodeFailure::Shape)),
        },
    }
}

/// Reads a reply that carries no payload: a "no content" status, or any
/// other status that is not an error, is a success.
pub fn handle_no_content_response(code: u16, body: String) -> (r: Result<(), ClientError>)
    ensures
        is_error_status(code) ==> r == Err::<(), ClientError>(
            ClientError::RequestError(RequestFailure::Status { code, body }),
        ),
        !is_error_status(code) ==> r is Ok,
{
    if code == 204 {
        Ok(())
    } else if 400 <= code && code <= 599 {
        Err(ClientError::RequestError(RequestFailure::Status { code, body }))
    } else {
        Ok(())
    }
}

/// An initialization always asks to publish the session: whatever the
/// caller chooses for `compete`, the body sends `publish` as `true` and
/// `compete` as chosen.
pub proof fn lemma_init_always_publishes(compete: bool)
    ensures
        body_of(Operation::Init { compete }) == Some(
            "{\"publish\":true,\"compete\":"@ + bool_text(compete) + "}"@,
        ),
{
    assert("{\"publish\":"@ + bool_text(true) + ",\"compete\":"@ + bool_text(compete) + "}"@
        =~= "{\"publish\":true,\"compete\":"@ + bool_text(compete) + "}"@) by {
        reveal_strlit("{\"publish\":");
        reveal_strlit(",\"compete\":");
        reveal_strlit("{\"publish\":true,\"compete\":");
        reveal_strlit("true");
    }
}

/// A reply with a client or server error status yields `RequestError` with
/// that status and body, whatever the body holds: it is never read as the
/// expected entity.
pub proof fn lemma_error_status_is_request_error<T: WireDecode>(
    code: u16,
    body: String,
    parsed: Option<JsonValue>,
    other: Option<JsonValue>,
)
    requires
        is_error_status(code),
    ensures
        reply_outcome::<T>(code, body, parsed) == Err::<T, ClientError>(
            ClientError::RequestError(RequestFailure::Status { code, body }),
        ),
        reply_outcome::<T>(code, body, parsed) == reply_outcome::<T>(code, body, other),
{
}

/// A successful reply whose body lacks a member that the entity requires
/// yields `DecodingError`.
pub proof fn lemma_missing_member_is_decoding_error<T: WireDecode>(
    code: u16,
    body: String,
    v: JsonValue,
    key: Seq<char>,
)
    requires
        !is_error_status(code),
        T::required_member(key),
        member(v, key) is None,
    ensures
        reply_outcome::<T>(code, body, Some(v)) == Err::<T, ClientError>(
            ClientError::DecodingError(DecodeFailure::Shape),
        ),
{
    T::lemma_required_member(v, key);
}

/// Two keepalive replies are reported verbatim: each result carries the
/// expiry that its reply holds, so a decreasing expiry stays decreasing.
pub proof fn lemma_tickle_expiry_verbatim(
    first: Result<TickleResponse, ClientError>,
    second: Result<TickleResponse, ClientError>,
    code1: u16,
    body1: String,
    v1: JsonValue,
    code2: u16,
    body2: String,
    v2: JsonValue,
)
    requires
        first == reply_outcome::<TickleResponse>(code1, body1, Some(v1)),
        second == reply_outcome::<TickleResponse>(code2, body2, Some(v2)),
        first is Ok,
        second is Ok,
    ensures
        int_at(v1, "ssoExpires"@) == Some(first->Ok_0.sso_expires),
        int_at(v2, "ssoExpires"@) == Some(second->Ok_0.sso_expires),
        int_at(v2, "ssoExpires"@)->0 < int_at(v1, "ssoExpires"@)->0 ==> second->Ok_0.sso_expires
            < first->Ok_0.sso_expires,
{
}

/// The client keeps no session state of its own: after a logout, whatever
/// its outcome, a status call reports exactly what the gateway's reply says.
pub proof fn lemma_status_after_logout_follows_gateway(
    logout: Result<LogoutResponse, ClientError>,
    code: u16,
    body: String,
    v: JsonValue,
)
    requires
        !is_error_status(code),
        AuthStatusResponse::from_wire(v) is Some,
    ensures
        reply_outcome::<AuthStatusResponse>(code, body, Some(v)) == Ok::<
            AuthStatusResponse,
            ClientError,
        >(AuthStatusResponse::from_wire(v)->0),
        reply_outcome::<AuthStatusResponse>(code, body, Some(v))->Ok_0.authenticated == bool_at(
            v,
            "authenticated"@,
        )->0,
{
}

} // verus!
