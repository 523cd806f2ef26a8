//! A typed client for a brokerage gateway's session-management API.
//!
//! The library holds the gateway's base address, plans each session call
//! (method, path, body, headers) and interprets each reply into a typed entity
//! or a classified failure. Sending a request is left to the caller.
pub mod address;
pub mod client;
pub mod json;
pub mod models;
pub mod session;

pub use client::{Client, ClientError, DecodeFailure, RequestFailure};
pub use json::JsonValue;
pub use models::{
    AuthStatusResponse, Features, HmdsInfo, HmdsInitResponse, IServerInfo, InitSessionRequest,
    InitSessionResponse, LogoutResponse, ServerInfo, SsoValidateResponse, TickleResponse,
    WireDecode,
};
pub use session::{HttpMethod, Operation, RequestPlan, plan, read_reply};
