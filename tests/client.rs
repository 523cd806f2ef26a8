use ibkrrusty::address::{decimal_text, local_address_text, parse_port, port_from_setting};
use ibkrrusty::{Client, ClientError, DecodeFailure, RequestFailure};

#[test]
fn valid_base_address_builds_a_context() {
    let c = Client::with_base_url("https://localhost:5000/v1/api/");
    assert!(c.is_ok());
}

#[test]
fn malformed_base_address_is_configuration_error() {
    for bad in ["not a url", "", "https://", "://missing-scheme", "http://[::1"] {
        let c = Client::with_base_url(bad);
        assert!(matches!(c, Err(ClientError::ParseError(_))), "{bad}");
    }
}

#[test]
fn context_on_a_port() {
    assert!(Client::with_port(5001).is_ok());
    assert!(Client::with_port(0).is_ok());
}

#[test]
fn context_from_port_setting() {
    assert!(Client::new(None).is_ok());
    assert!(Client::new(Some("4002")).is_ok());
    assert!(Client::new(Some("not a port")).is_ok());
}

#[test]
fn context_over_a_given_transport() {
    let http = reqwest::Client::new();
    let c = Client::with_client(http.clone(), None).unwrap();
    let url = c.endpoint("tickle").unwrap();
    assert_eq!(url.as_str(), "https://localhost:5000/v1/api/tickle");
    let c = Client::with_client(http.clone(), Some("https://localhost:4001/v1/api/")).unwrap();
    let url = c.endpoint("iserver/auth/status").unwrap();
    assert_eq!(url.as_str(), "https://localhost:4001/v1/api/iserver/auth/status");
    assert!(matches!(Client::with_client(http, Some("bad")), Err(ClientError::ParseError(_))));
}

#[test]
fn endpoint_joins_relative_path() {
    let c = Client::with_port(5002).unwrap();
    assert_eq!(c.endpoint("sso/validate").unwrap().as_str(), "https://localhost:5002/v1/api/sso/validate");
}

#[test]
fn port_settings() {
    assert_eq!(parse_port("5000"), Some(5000));
    assert_eq!(parse_port("+8080"), Some(8080));
    assert_eq!(parse_port("0"), Some(0));
    assert_eq!(parse_port("65535"), Some(65535));
    assert_eq!(parse_port("65536"), None);
    assert_eq!(parse_port("123456789"), None);
    assert_eq!(parse_port(""), None);
    assert_eq!(parse_port("+"), None);
    assert_eq!(parse_port("-1"), None);
    assert_eq!(parse_port(" 80"), None);
    assert_eq!(parse_port("80a"), None);
    assert_eq!(port_from_setting(None), 5000);
    assert_eq!(port_from_setting(Some("4001")), 4001);
    assert_eq!(port_from_setting(Some("x")), 5000);
}

#[test]
fn port_settings_agree_with_std() {
    for text in ["5000", "+1", "007", "65535", "65536", "", "+", "-0", "1_0", "99999"] {
        assert_eq!(parse_port(text), text.parse::<u16>().ok(), "{text}");
    }
}

#[test]
fn local_addresses() {
    assert_eq!(decimal_text(0), "0");
    assert_eq!(decimal_text(7), "7");
    assert_eq!(decimal_text(10), "10");
    assert_eq!(decimal_text(65535), "65535");
    assert_eq!(local_address_text(5000), "https://localhost:5000/v1/api/");
    assert_eq!(local_address_text(443), "https://localhost:443/v1/api/");
}

#[test]
fn failure_messages() {
    let e = ClientError::RequestError(RequestFailure::Status { code: 404, body: "missing".to_string() });
    assert_eq!(e.message(), "Request error: HTTP status 404, body: missing");
    let e = ClientError::DecodingError(DecodeFailure::Syntax);
    assert_eq!(e.message(), "Decoding error: the body is not JSON");
    let e = ClientError::DecodingError(DecodeFailure::Shape);
    assert_eq!(e.message(), "Decoding error: the body lacks the expected members");
    match Client::with_base_url("not a url") {
        Err(e) => {
            let m = e.message();
            assert!(m.starts_with("URL parse error: "));
            assert!(m.len() > "URL parse error: ".len());
        }
        Ok(_) => panic!("expected a parse error"),
    }
}

#[test]
fn conversions_into_client_error() {
    let e: ClientError = url::Url::parse("nope").unwrap_err().into();
    assert!(matches!(e, ClientError::ParseError(url::ParseError::RelativeUrlWithoutBase)));
}
