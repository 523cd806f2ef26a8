//! The connection context: the gateway's base address and the transport.
use vstd::prelude::*;
use reqwest::Client as HttpClient;
use crate::address::{
    DEFAULT_PORT, decimal, decimal_text, local_address, local_address_text, port_for_setting,
    port_from_setting,
};

verus! {

#[verifier::external_type_specification]
#[verifier::external_body]
pub struct ExUrl(url::Url);

#[verifier::external_type_specification]
#[verifier::external_body]
pub struct ExParseError(url::ParseError);

#[verifier::external_type_specification]
#[verifier::external_body]
pub struct ExHttpClient(HttpClient);

#[verifier::external_type_specification]
#[verifier::external_body]
pub struct ExHttpError(reqwest::Error);

/// Whether `url::Url::parse` accepts the text `s` as an absolute URL.
pub uninterp spec fn url_parses(s: Seq<char>) -> bool;

/// Relies on `url::Url::parse`: it succeeds exactly on the inputs that it
/// accepts, which depends on the input alone.
#[verifier::external_body]
fn parse_url(s: &str) -> (r: Result<url::Url, url::ParseError>)
    ensures
        r is Ok <==> url_parses(s@),
{
    url::Url::parse(s)
}

/// Relies on `url::Url::join`: resolves a relative reference against a base.
#[verifier::external_body]
fn join_url(base: &url::Url, path: &str) -> (r: Result<url::Url, url::ParseError>) {
    base.join(path)
}

/// Relies on `reqwest::ClientBuilder`: a transport that accepts any server
/// certificate and keeps the cookies that the gateway sets. Building it may
/// fail on the machine's TLS or resolver set-up, so nothing is promised.
#[verifier::external_body]
fn build_transport() -> (r: Result<HttpClient, reqwest::Error>) {
    HttpClient::builder().danger_accept_invalid_certs(true).cookie_store(true).build()
}

/// Relies on the `Display` of `url::ParseError`: a description of the error.
#[verifier::external_body]
fn parse_error_text(e: &url::ParseError) -> String {
    e.to_string()
}

/// Relies on the `Display` of `reqwest::Error`: a description of the error.
#[verifier::external_body]
fn transport_error_text(e: &reqwest::Error) -> String {
    e.to_string()
}

/// Why a call failed to reach the gateway or was refused by it.
#[derive(Debug)]
pub enum RequestFailure {
    /// The transport failed: connection refused, timeout, TLS handshake.
    Transport(reqwest::Error),
    /// The gateway answered with a client or server error status.
    Status { code: u16, body: String },
}

/// Why a reply body could not be read as the expected entity.
#[derive(Debug, Clone, Copy, PartialEq, Eq, Structural)]
pub enum DecodeFailure {
    /// The body is not JSON.
    Syntax,
    /// The body is JSON without the expected members.
    Shape,
}

/// A failure of the session client.
#[derive(Debug)]
pub enum ClientError {
    /// The base address is not a valid URL: a configuration error.
    ParseError(url::ParseError),
    /// The gateway could not be reached, or refused the call.
    RequestError(RequestFailure),
    /// The reply did not have the expected shape.
    DecodingError(DecodeFailure),
}

impl From<url::ParseError> for ClientError {
    fn from(e: url::ParseError) -> (r: ClientError)
        ensures
            r matches ClientError::ParseError(x) && x == e,
    {
        ClientError::ParseError(e)
    }
}

impl vstd::std_specs::convert::FromSpecImpl<url::ParseError> for ClientError {
    open spec fn obeys_from_spec() -> bool {
        true
    }

    open spec fn from_spec(e: url::ParseError) -> ClientError {
        ClientError::ParseError(e)
    }
}

impl From<reqwest::Error> for ClientError {
    fn from(e: reqwest::Error) -> (r: ClientError)
        ensures
            r matches ClientError::RequestError(RequestFailure::Transport(x)) && x == e,
    {
        ClientError::RequestError(RequestFailure::Transport(e))
    }
}

impl vstd::std_specs::convert::FromSpecImpl<reqwest::Error> for ClientError {
    open spec fn obeys_from_spec() -> bool {
        true
    }

    open spec fn from_spec(e: reqwest::Error) -> ClientError {
        ClientError::RequestError(RequestFailure::Transport(e))
    }
}

impl ClientError {
    /// A description of the failure, led by its kind.
    pub fn message(&self) -> (r: String)
        ensures
            match self {
                ClientError::ParseError(_) => exists|t: Seq<char>| r@ == "URL parse error: "@ + t,
                ClientError::RequestError(RequestFailure::Transport(_)) => exists|t: Seq<char>|
                    r@ == "Request error: "@ + t,
                ClientError::RequestError(RequestFailure::Status { code, body }) => r@
                    == "Request error: HTTP status "@ + decimal(*code as nat) + ", body: "@ + body@,
                ClientError::DecodingError(DecodeFailure::Syntax) => r@
                    == "Decoding error: the body is not JSON"@,
                ClientError::DecodingError(DecodeFailure::Shape) => r@
                    == "Decoding error: the body lacks the expected members"@,
            },
    {
        match self {
            ClientError::ParseError(e) => {
                let detail = parse_error_text(e);
                let mut r = String::from_str("URL parse error: ");
                r.append(detail.as_str());
                assert(r@ == "URL parse error: "@ + detail@);
                r
            },
            ClientError::RequestError(RequestFailure::Transport(e)) => {
                let detail = transport_error_text(e);
                let mut r = String::from_str("Request error: ");
                r.append(detail.as_str());
                assert(r@ == "Request error: "@ + detail@);
                r
            },
            ClientError::RequestError(RequestFailure::Status { code, body }) => {
                let mut r = String::from_str("Request error: HTTP status ");
                let digits = decimal_text(*code);
                r.append(digits.as_str());
                r.append(", body: ");
                r.append(body.as_str());
                r
            },
            ClientError::DecodingError(DecodeFailure::Syntax) => String::from_str(
                "Decoding error: the body is not JSON",
            ),
            ClientError::DecodingError(DecodeFailure::Shape) => String::from_str(
                "Decoding error: the body lacks the expected members",
            ),
        }
    }
}

/// The connection context: a base address and a cookie-keeping transport.
pub struct Client {
    http: HttpClient,
    base_url: url::Url,
    address: Ghost<Seq<char>>,
}

/// The address that `with_client` uses for an optional base address.
pub open spec fn chosen_address(base_url: Option<Seq<char>>) -> Seq<char> {
    match base_url {
        Some(s) => s,
        None => local_address(DEFAULT_PORT),
    }
}

impl Client {
    /// The text of the base address that the context was built from.
    pub closed spec fn address(&self) -> Seq<char> {
        self.address@
    }

    /// A context over the gateway on the loopback host, at the port that the
    /// setting names (the default port where it names none).
    pub fn new(port_setting: Option<&str>) -> (r: Result<Self, ClientError>)
        ensures
            ({
                let port = port_for_setting(
                    match port_setting {
                        Some(s) => Some(s@),
                        None => None,
                    },
                );
                &&& !url_parses(local_address(port)) ==> (r matches Err(ClientError::ParseError(_)))
                &&& url_parses(local_address(port)) ==> match r {
                    Ok(c) => c.address() == local_address(port),
                    Err(e) => e matches ClientError::RequestError(RequestFailure::Transport(_)),
                }
            }),
    {
        let port = port_from_setting(port_setting);
        Self::with_port(port)
    }

    /// A context over the gateway at `base_url`, with a transport of its own.
    /// A malformed address fails with `ParseError` before anything is built.
    pub fn with_base_url(base_url: &str) -> (r: Result<Self, ClientError>)
        ensures
            !url_parses(base_url@) ==> (r matches Err(ClientError::ParseError(_))),
            url_parses(base_url@) ==> match r {
                Ok(c) => c.address() == base_url@,
                Err(e) => e matches ClientError::RequestError(RequestFailure::Transport(_)),
            },
    {
        let parsed = parse_url(base_url);
        match parsed {
            Err(e) => Err(ClientError::ParseError(e)),
            Ok(u) => match build_transport() {
                Ok(http) => Ok(Client { http, base_url: u, address: Ghost(base_url@) }),
                Err(e) => Err(ClientError::RequestError(RequestFailure::Transport(e))),
            },
        }
    }

    /// A context over the gateway on the loopback host at `port`.
    pub fn with_port(port: u16) -> (r: Result<Self, ClientError>)
        ensures
            !url_parses(local_address(port)) ==> (r matches Err(ClientError::ParseError(_))),
            url_parses(local_address(port)) ==> match r {
                Ok(c) => c.address() == local_address(port),
                Err(e) => e matches ClientError::RequestError(RequestFailure::Transport(_)),
            },
    {
        let address = local_address_text(port);
        Self::with_base_url(address.as_str())
    }

    /// A context over a transport supplied by the caller, at `base_url` or,
    /// where none is given, at the default local address.
    pub fn with_client(http_client: HttpClient, base_url: Option<&str>) -> (r: Result<
        Self,
        ClientError,
    >)
        ensures
            ({
                let chosen = chosen_address(
                    match base_url {
                        Some(s) => Some(s@),
                        None => None,
                    },
                );
                &&& r is Ok <==> url_parses(chosen)
                &&& (r matches Ok(c) ==> c.address() == chosen)
                &&& (r matches Err(e) ==> e matches ClientError::ParseError(_))
            }),
    {
        let default_address = local_address_text(DEFAULT_PORT);
        let chosen = match base_url {
            Some(s) => s,
            None => default_address.as_str(),
        };
        match parse_url(chosen) {
            Ok(u) => Ok(Client { http: http_client, base_url: u, address: Ghost(chosen@) }),
            Err(e) => Err(ClientError::ParseError(e)),
        }
    }

    /// The transport that calls go through.
    pub fn http(&self) -> &HttpClient {
        &self.http
    }

    /// The absolute address of the endpoint at `path`, relative to the base.
    pub fn endpoint(&self, path: &str) -> (r: Result<url::Url, ClientError>)
        ensures
            r matches Err(e) ==> e matches ClientError::ParseError(_),
    {
        match join_url(&self.base_url, path) {
            Ok(u) => Ok(u),
            Err(e) => Err(ClientError::ParseError(e)),
        }
    }
}

} // verus!
