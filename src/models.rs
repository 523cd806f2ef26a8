//! The session entities, and how each one is read from a JSON reply.
//!
//! A reply is read as a derived decoder would read it: unknown members are
//! ignored, a required member must be present with the right type, and an
//! optional member may be missing or `null`.
use vstd::prelude::*;
use crate::json::{JsonValue, member, absent_at, bool_at, int_at, int32_at, text_at, opt_bool_at, opt_text_at};

verus! {

/// An entity that can be read from a JSON value.
pub trait WireDecode: Sized {
    /// The entity that `v` holds, or `None` when `v` does not have its shape.
    spec fn from_wire(v: JsonValue) -> Option<Self>;

    fn decode(v: &JsonValue) -> (r: Option<Self>)
        ensures
            r == Self::from_wire(*v),
    ;

    /// Whether the member `key` must be present for a value to be read.
    spec fn required_member(key: Seq<char>) -> bool;

    /// A value that lacks a required member is not read.
    proof fn lemma_required_member(v: JsonValue, key: Seq<char>)
        requires
            Self::required_member(key),
            member(v, key) is None,
        ensures
            Self::from_wire(v) is None,
    ;
}

/// A required member that holds a `T`.
pub open spec fn decoded_at<T: WireDecode>(v: JsonValue, key: Seq<char>) -> Option<T> {
    match member(v, key) {
        Some(x) => T::from_wire(x),
        None => None,
    }
}

/// An optional member that holds a `T`: `Some(None)` when it is missing or
/// `null`, `None` when it holds something else.
pub open spec fn opt_decoded_at<T: WireDecode>(v: JsonValue, key: Seq<char>) -> Option<Option<T>> {
    if absent_at(v, key) {
        Some(None)
    } else {
        match decoded_at::<T>(v, key) {
            Some(t) => Some(Some(t)),
            None => None,
        }
    }
}

fn decode_member<T: WireDecode>(v: &JsonValue, key: &str) -> (r: Option<T>)
    ensures
        r == decoded_at::<T>(*v, key@),
{
    match v.get(key) {
        Some(x) => T::decode(x),
        None => None,
    }
}

fn opt_decode_member<T: WireDecode>(v: &JsonValue, key: &str) -> (r: Option<Option<T>>)
    ensures
        r == opt_decoded_at::<T>(*v, key@),
{
    if v.is_absent(key) {
        Some(None)
    } else {
        match decode_member::<T>(v, key) {
            Some(t) => Some(Some(t)),
            None => None,
        }
    }
}

/// The gateway's report of the session's authentication state.
#[derive(Debug, Clone)]
pub struct AuthStatusResponse {
    pub authenticated: bool,
    pub competing: bool,
    pub connected: bool,
    pub message: String,
    pub mac: String,
    pub server_info: Option<ServerInfo>,
    pub hardware_info: Option<String>,
    pub fail: Option<String>,
}

impl WireDecode for AuthStatusResponse {
    open spec fn required_member(key: Seq<char>) -> bool {
        key == "authenticated"@
            || key == "competing"@
            || key == "connected"@
            || key == "message"@
            || key == "MAC"@
    }

    proof fn lemma_required_member(v: JsonValue, key: Seq<char>) {
    }

    open spec fn from_wire(v: JsonValue) -> Option<Self> {
        if bool_at(v, "authenticated"@) is Some && bool_at(v, "competing"@) is Some && bool_at(
            v,
            "connected"@,
        ) is Some && text_at(v, "message"@) is Some && text_at(v, "MAC"@) is Some
            && opt_decoded_at::<ServerInfo>(v, "serverInfo"@) is Some && opt_text_at(
            v,
            "hardwareInfo"@,
        ) is Some && opt_text_at(v, "fail"@) is Some {
            Some(
                AuthStatusResponse {
                    authenticated: bool_at(v, "authenticated"@)->0,
                    competing: bool_at(v, "competing"@)->0,
                    connected: bool_at(v, "connected"@)->0,
                    message: text_at(v, "message"@)->0,
                    mac: text_at(v, "MAC"@)->0,
                    server_info: opt_decoded_at::<ServerInfo>(v, "serverInfo"@)->0,
                    hardware_info: opt_text_at(v, "hardwareInfo"@)->0,
                    fail: opt_text_at(v, "fail"@)->0,
                },
            )
        } else {
            None
        }
    }

    fn decode(v: &JsonValue) -> (r: Option<Self>) {
        let authenticated = v.bool_member("authenticated");
        let competing = v.bool_member("competing");
        let connected = v.bool_member("connected");
        let message = v.text_member("message");
        let mac = v.text_member("MAC");
        let server_info = opt_decode_member::<ServerInfo>(v, "serverInfo");
        let hardware_info = v.opt_text_member("hardwareInfo");
        let fail = v.opt_text_member("fail");
        match (authenticated, competing, connected, message, mac, server_info, hardware_info, fail) {
            (Some(authenticated), Some(competing), Some(connected), Some(message), Some(mac), Some(server_info), Some(hardware_info), Some(fail)) => Some(
                AuthStatusResponse {
                    authenticated,
                    competing,
                    connected,
                    message,
                    mac,
                    server_info,
                    hardware_info,
                    fail,
                },
            ),
            _ => None,
        }
    }
}

/// The backend server that the gateway is connected to.
#[derive(Debug, Clone)]
pub struct ServerInfo {
    pub server_name: String,
    pub server_version: String,
}

impl WireDecode for ServerInfo {
    open spec fn required_member(key: Seq<char>) -> bool {
        key == "serverName"@
            || key == "serverVersion"@
    }

    proof fn lemma_required_member(v: JsonValue, key: Seq<char>) {
        assert(text_at(v, "serverName"@) is None || text_at(v, "serverVersion"@) is None);
        assert(Self::from_wire(v) is None);
    }

    open spec fn from_wire(v: JsonValue) -> Option<Self> {
        if text_at(v, "serverName"@) is Some && text_at(v, "serverVersion"@) is Some {
            Some(
                ServerInfo {
                    server_name: text_at(v, "serverName"@)->0,
                    server_version: text_at(v, "serverVersion"@)->0,
                },
            )
        } else {
            None
        }
    }

    fn decode(v: &JsonValue) -> (r: Option<Self>) {
        match (v.text_member("serverName"), v.text_member("serverVersion")) {
            (Some(server_name), Some(server_version)) => Some(ServerInfo { server_name, server_version }),
            _ => None,
        }
    }
}

/// The body of a session-initialization call.
#[derive(Debug, Clone, Copy)]
pub struct InitSessionRequest {
    pub publish: bool,
    pub compete: bool,
}

impl InitSessionRequest {
    /// A request that publishes the session; `compete` says whether to take
    /// it over from another holder. `publish` is fixed by the protocol.
    pub fn new(compete: bool) -> (r: Self)
        ensures
            r.publish,
            r.compete == compete,
    {
        InitSessionRequest { publish: true, compete }
    }
}

/// The result of initializing a session.
#[derive(Debug, Clone)]
pub struct InitSessionResponse {
    pub authenticated: bool,
    pub competing: bool,
    pub connected: bool,
    pub message: String,
    pub mac: String,
    pub server_info: Option<ServerInfo>,
}

impl WireDecode for InitSessionResponse {
    open spec fn required_member(key: Seq<char>) -> bool {
        key == "authenticated"@
            || key == "competing"@
            || key == "connected"@
            || key == "message"@
            || key == "MAC"@
    }

    proof fn lemma_required_member(v: JsonValue, key: Seq<char>) {
    }

    open spec fn from_wire(v: JsonValue) -> Option<Self> {
        if bool_at(v, "authenticated"@) is Some && bool_at(v, "competing"@) is Some && bool_at(
            v,
            "connected"@,
        ) is Some && text_at(v, "message"@) is Some && text_at(v, "MAC"@) is Some
            && opt_decoded_at::<ServerInfo>(v, "serverInfo"@) is Some {
            Some(
                InitSessionResponse {
                    authenticated: bool_at(v, "authenticated"@)->0,
                    competing: bool_at(v, "competing"@)->0,
                    connected: bool_at(v, "connected"@)->0,
                    message: text_at(v, "message"@)->0,
                    mac: text_at(v, "MAC"@)->0,
                    server_info: opt_decoded_at::<ServerInfo>(v, "serverInfo"@)->0,
                },
            )
        } else {
            None
        }
    }

    fn decode(v: &JsonValue) -> (r: Option<Self>) {
        let authenticated = v.bool_member("authenticated");
        let competing = v.bool_member("competing");
        let connected = v.bool_member("connected");
        let message = v.text_member("message");
        let mac = v.text_member("MAC");
        let server_info = opt_decode_member::<ServerInfo>(v, "serverInfo");
        match (authenticated, competing, connected, message, mac, server_info) {
            (Some(authenticated), Some(competing), Some(connected), Some(message), Some(mac), Some(server_info)) => Some(
                InitSessionResponse { authenticated, competing, connected, message, mac, server_info },
            ),
            _ => None,
        }
    }
}

/// The result of enabling the historical-data subsystem.
#[derive(Debug, Clone, Copy)]
pub struct HmdsInitResponse {
    pub authenticated: bool,
}

impl WireDecode for HmdsInitResponse {
    open spec fn required_member(key: Seq<char>) -> bool {
        key == "authenticated"@
    }

    proof fn lemma_required_member(v: JsonValue, key: Seq<char>) {
    }

    open spec fn from_wire(v: JsonValue) -> Option<Self> {
        match bool_at(v, "authenticated"@) {
            Some(authenticated) => Some(HmdsInitResponse { authenticated }),
            None => None,
        }
    }

    fn decode(v: &JsonValue) -> (r: Option<Self>) {
        match v.bool_member("authenticated") {
            Some(authenticated) => Some(HmdsInitResponse { authenticated }),
            None => None,
        }
    }
}

/// The result of ending the session.
#[derive(Debug, Clone, Copy)]
pub struct LogoutResponse {
    pub status: bool,
}

impl WireDecode for LogoutResponse {
    open spec fn required_member(key: Seq<char>) -> bool {
        key == "status"@
    }

    proof fn lemma_required_member(v: JsonValue, key: Seq<char>) {
    }

    open spec fn from_wire(v: JsonValue) -> Option<Self> {
        match bool_at(v, "status"@) {
            Some(status) => Some(LogoutResponse { status }),
            None => None,
        }
    }

    fn decode(v: &JsonValue) -> (r: Option<Self>) {
        match v.bool_member("status") {
            Some(status) => Some(LogoutResponse { status }),
            None => None,
        }
    }
}

/// The acknowledgement of a keepalive call.
#[derive(Debug, Clone)]
pub struct TickleResponse {
    pub session: String,
    /// Milliseconds left before the single-sign-on ticket expires.
    pub sso_expires: i64,
    pub collission: bool,
    pub user_id: i64,
    pub hmds: Option<HmdsInfo>,
    pub iserver: Option<IServerInfo>,
}

impl WireDecode for TickleResponse {
    open spec fn required_member(key: Seq<char>) -> bool {
        key == "session"@
            || key == "ssoExpires"@
            || key == "collission"@
            || key == "userId"@
    }

    proof fn lemma_required_member(v: JsonValue, key: Seq<char>) {
    }

    open spec fn from_wire(v: JsonValue) -> Option<Self> {
        if text_at(v, "session"@) is Some && int_at(v, "ssoExpires"@) is Some && bool_at(
            v,
            "collission"@,
        ) is Some && int_at(v, "userId"@) is Some && opt_decoded_at::<HmdsInfo>(v, "hmds"@) is Some
            && opt_decoded_at::<IServerInfo>(v, "iserver"@) is Some {
            Some(
                TickleResponse {
                    session: text_at(v, "session"@)->0,
                    sso_expires: int_at(v, "ssoExpires"@)->0,
                    collission: bool_at(v, "collission"@)->0,
                    user_id: int_at(v, "userId"@)->0,
                    hmds: opt_decoded_at::<HmdsInfo>(v, "hmds"@)->0,
                    iserver: opt_decoded_at::<IServerInfo>(v, "iserver"@)->0,
                },
            )
        } else {
            None
        }
    }

    fn decode(v: &JsonValue) -> (r: Option<Self>) {
        let session = v.text_member("session");
        let sso_expires = v.int_member("ssoExpires");
        let collission = v.bool_member("collission");
        let user_id = v.int_member("userId");
        let hmds = opt_decode_member::<HmdsInfo>(v, "hmds");
        let iserver = opt_decode_member::<IServerInfo>(v, "iserver");
        match (session, sso_expires, collission, user_id, hmds, iserver) {
            (Some(session), Some(sso_expires), Some(collission), Some(user_id), Some(hmds), Some(iserver)) => Some(
                TickleResponse { session, sso_expires, collission, user_id, hmds, iserver },
            ),
            _ => None,
        }
    }
}

/// The historical-data subsystem's part of a keepalive acknowledgement.
#[derive(Debug, Clone)]
pub struct HmdsInfo {
    pub error: Option<String>,
}

impl WireDecode for HmdsInfo {
    open spec fn required_member(key: Seq<char>) -> bool {
        false
    }

    proof fn lemma_required_member(v: JsonValue, key: Seq<char>) {
    }

    open spec fn from_wire(v: JsonValue) -> Option<Self> {
        if v is Object && opt_text_at(v, "error"@) is Some {
            Some(HmdsInfo { error: opt_text_at(v, "error"@)->0 })
        } else {
            None
        }
    }

    fn decode(v: &JsonValue) -> (r: Option<Self>) {
        match v {
            JsonValue::Object(_) => match v.opt_text_member("error") {
                Some(error) => Some(HmdsInfo { error }),
                None => None,
            },
            _ => None,
        }
    }
}

/// The trading subsystem's part of a keepalive acknowledgement.
#[derive(Debug, Clone)]
pub struct IServerInfo {
    pub auth_status: AuthStatusResponse,
}

impl WireDecode for IServerInfo {
    open spec fn required_member(key: Seq<char>) -> bool {
        key == "authStatus"@
    }

    proof fn lemma_required_member(v: JsonValue, key: Seq<char>) {
        assert(decoded_at::<AuthStatusResponse>(v, "authStatus"@) is None);
        assert(Self::from_wire(v) is None);
    }

    open spec fn from_wire(v: JsonValue) -> Option<Self> {
        match decoded_at::<AuthStatusResponse>(v, "authStatus"@) {
            Some(auth_status) => Some(IServerInfo { auth_status }),
            None => None,
        }
    }

    fn decode(v: &JsonValue) -> (r: Option<Self>) {
        match decode_member::<AuthStatusResponse>(v, "authStatus") {
            Some(auth_status) => Some(IServerInfo { auth_status }),
            None => None,
        }
    }
}

/// The single-sign-on validation payload.
#[derive(Debug, Clone)]
pub struct SsoValidateResponse {
    pub user_id: i64,
    pub user_name: String,
    /// `false` for an invalid or expired ticket.
    pub result: bool,
    pub auth_time: i64,
    pub sf_enabled: bool,
    pub is_free_trial: bool,
    pub credential: String,
    pub ip: String,
    pub expires: i64,
    pub qualified_for_mobile_auth: Option<bool>,
    pub landing_app: String,
    pub is_master: bool,
    pub last_accessed: i64,
    /// 1 for a live login, 2 for a paper one.
    pub login_type: i32,
    pub paper_user_name: Option<String>,
    pub features: Option<Features>,
    pub region: Option<String>,
}

impl WireDecode for SsoValidateResponse {
    open spec fn required_member(key: Seq<char>) -> bool {
        key == "USER_ID"@
            || key == "USER_NAME"@
            || key == "RESULT"@
            || key == "AUTH_TIME"@
            || key == "SF_ENABLED"@
            || key == "IS_FREE_TRIAL"@
            || key == "CREDENTIAL"@
            || key == "IP"@
            || key == "EXPIRES"@
            || key == "LANDING_APP"@
            || key == "IS_MASTER"@
            || key == "LAST_ACCESSED"@
            || key == "LOGIN_TYPE"@
    }

    proof fn lemma_required_member(v: JsonValue, key: Seq<char>) {
    }

    open spec fn from_wire(v: JsonValue) -> Option<Self> {
        if int_at(v, "USER_ID"@) is Some && text_at(v, "USER_NAME"@) is Some && bool_at(
            v,
            "RESULT"@,
        ) is Some && int_at(v, "AUTH_TIME"@) is Some && bool_at(v, "SF_ENABLED"@) is Some
            && bool_at(v, "IS_FREE_TRIAL"@) is Some && text_at(v, "CREDENTIAL"@) is Some && text_at(
            v,
            "IP"@,
        ) is Some && int_at(v, "EXPIRES"@) is Some && opt_bool_at(
            v,
            "QUALIFIED_FOR_MOBILE_AUTH"@,
        ) is Some && text_at(v, "LANDING_APP"@) is Some && bool_at(v, "IS_MASTER"@) is Some
            && int_at(v, "LAST_ACCESSED"@) is Some && int32_at(v, "LOGIN_TYPE"@) is Some
            && opt_text_at(v, "PAPER_USER_NAME"@) is Some && opt_decoded_at::<Features>(
            v,
            "FEATURES"@,
        ) is Some && opt_text_at(v, "REGION"@) is Some {
            Some(
                SsoValidateResponse {
                    user_id: int_at(v, "USER_ID"@)->0,
                    user_name: text_at(v, "USER_NAME"@)->0,
                    result: bool_at(v, "RESULT"@)->0,
                    auth_time: int_at(v, "AUTH_TIME"@)->0,
                    sf_enabled: bool_at(v, "SF_ENABLED"@)->0,
                    is_free_trial: bool_at(v, "IS_FREE_TRIAL"@)->0,
                    credential: text_at(v, "CREDENTIAL"@)->0,
                    ip: text_at(v, "IP"@)->0,
                    expires: int_at(v, "EXPIRES"@)->0,
                    qualified_for_mobile_auth: opt_bool_at(v, "QUALIFIED_FOR_MOBILE_AUTH"@)->0,
                    landing_app: text_at(v, "LANDING_APP"@)->0,
                    is_master: bool_at(v, "IS_MASTER"@)->0,
                    last_accessed: int_at(v, "LAST_ACCESSED"@)->0,
                    login_type: int32_at(v, "LOGIN_TYPE"@)->0,
                    paper_user_name: opt_text_at(v, "PAPER_USER_NAME"@)->0,
                    features: opt_decoded_at::<Features>(v, "FEATURES"@)->0,
                    region: opt_text_at(v, "REGION"@)->0,
                },
            )
        } else {
            None
        }
    }

    fn decode(v: &JsonValue) -> (r: Option<Self>) {
        let user_id = v.int_member("USER_ID");
        let user_name = v.text_member("USER_NAME");
        let result = v.bool_member("RESULT");
        let auth_time = v.int_member("AUTH_TIME");
        let sf_enabled = v.bool_member("SF_ENABLED");
        let is_free_trial = v.bool_member("IS_FREE_TRIAL");
        let credential = v.text_member("CREDENTIAL");
        let ip = v.text_member("IP");
        let expires = v.int_member("EXPIRES");
        let qualified_for_mobile_auth = v.opt_bool_member("QUALIFIED_FOR_MOBILE_AUTH");
        let landing_app = v.text_member("LANDING_APP");
        let is_master = v.bool_member("IS_MASTER");
        let last_accessed = v.int_member("LAST_ACCESSED");
        let login_type = v.int32_member("LOGIN_TYPE");
        let paper_user_name = v.opt_text_member("PAPER_USER_NAME");
        let features = opt_decode_member::<Features>(v, "FEATURES");
        let region = v.opt_text_member("REGION");
        if user_id.is_none() || user_name.is_none() || result.is_none() || auth_time.is_none()
            || sf_enabled.is_none() || is_free_trial.is_none() || credential.is_none()
            || ip.is_none() || expires.is_none() || qualified_for_mobile_auth.is_none()
            || landing_app.is_none() || is_master.is_none() || last_accessed.is_none()
            || login_type.is_none() || paper_user_name.is_none() || features.is_none()
            || region.is_none() {
            return None;
        }
        Some(
            SsoValidateResponse {
                user_id: user_id.unwrap(),
                user_name: user_name.unwrap(),
                result: result.unwrap(),
                auth_time: auth_time.unwrap(),
                sf_enabled: sf_enabled.unwrap(),
                is_free_trial: is_free_trial.unwrap(),
                credential: credential.unwrap(),
                ip: ip.unwrap(),
                expires: expires.unwrap(),
                qualified_for_mobile_auth: qualified_for_mobile_auth.unwrap(),
                landing_app: landing_app.unwrap(),
                is_master: is_master.unwrap(),
                last_accessed: last_accessed.unwrap(),
                login_type: login_type.unwrap(),
                paper_user_name: paper_user_name.unwrap(),
                features: features.unwrap(),
                region: region.unwrap(),
            },
        )
    }
}

/// The entitlement flags of an account.
#[derive(Debug, Clone)]
pub struct Features {
    pub env: String,
    pub wlms: bool,
    pub realtime: bool,
    pub bond: bool,
    pub option_chains: bool,
    pub calendar: bool,
    pub new_mf: bool,
}

impl WireDecode for Features {
    open spec fn required_member(key: Seq<char>) -> bool {
        key == "env"@
            || key == "wlms"@
            || key == "realtime"@
            || key == "bond"@
            || key == "optionChains"@
            || key == "calendar"@
            || key == "newMf"@
    }

    proof fn lemma_required_member(v: JsonValue, key: Seq<char>) {
        assert(text_at(v, "env"@) is None || bool_at(v, "wlms"@) is None || bool_at(v, "realtime"@)
            is None || bool_at(v, "bond"@) is None || bool_at(v, "optionChains"@) is None || bool_at(
            v,
            "calendar"@,
        ) is None || bool_at(v, "newMf"@) is None);
        assert(Self::from_wire(v) is None);
    }

    open spec fn from_wire(v: JsonValue) -> Option<Self> {
        if text_at(v, "env"@) is Some && bool_at(v, "wlms"@) is Some && bool_at(v, "realtime"@) is Some
            && bool_at(v, "bond"@) is Some && bool_at(v, "optionChains"@) is Some && bool_at(
            v,
            "calendar"@,
        ) is Some && bool_at(v, "newMf"@) is Some {
            Some(
                Features {
                    env: text_at(v, "env"@)->0,
                    wlms: bool_at(v, "wlms"@)->0,
                    realtime: bool_at(v, "realtime"@)->0,
                    bond: bool_at(v, "bond"@)->0,
                    option_chains: bool_at(v, "optionChains"@)->0,
                    calendar: bool_at(v, "calendar"@)->0,
                    new_mf: bool_at(v, "newMf"@)->0,
                },
            )
        } else {
            None
        }
    }

    fn decode(v: &JsonValue) -> (r: Option<Self>) {
        let env = v.text_member("env");
        let wlms = v.bool_member("wlms");
        let realtime = v.bool_member("realtime");
        let bond = v.bool_member("bond");
        let option_chains = v.bool_member("optionChains");
        let calendar = v.bool_member("calendar");
        let new_mf = v.bool_member("newMf");
        match (env, wlms, realtime, bond, option_chains, calendar, new_mf) {
            (Some(env), Some(wlms), Some(realtime), Some(bond), Some(option_chains), Some(calendar), Some(new_mf)) => Some(
                Features { env, wlms, realtime, bond, option_chains, calendar, new_mf },
            ),
            _ => None,
        }
    }
}

} // verus!
