use signalr_client::client::{Authentication, ConnectionConfiguration};
use signalr_client::text::{i32_text, u64_text, usize_text};

#[test]
fn socket_url_with_port_and_query() {
    let mut config = ConnectionConfiguration::new("api.example.com".to_string(), "deviceRHub".to_string());
    config.with_port(443);
    config.secure();
    config.with_query_param("type".to_string(), "client".to_string());
    config.with_access_token("abc".to_string());
    assert_eq!(
        config.get_socket_url(),
        "wss://api.example.com:443/deviceRHub?type=client&access_token=abc"
    );
    assert_eq!(
        config.get_negotiate_url(),
        "https://api.example.com:443/deviceRHub?type=client&access_token=abc&negotiate"
    );
}

#[test]
fn socket_url_without_query() {
    let mut config = ConnectionConfiguration::new("localhost".to_string(), "test".to_string());
    config.with_port(5220);
    config.unsecure();
    assert_eq!(config.get_socket_url(), "ws://localhost:5220/test");
    assert_eq!(config.get_web_url(), "http://localhost:5220/test");
    assert_eq!(config.get_negotiate_url(), "http://localhost:5220/test/negotiate");
}

#[test]
fn defaults_are_secure_without_port_or_query() {
    let config = ConnectionConfiguration::new("example.org".to_string(), "hub".to_string());
    assert_eq!(config.get_http_schema(), "https");
    assert_eq!(config.get_socket_schema(), "wss");
    assert_eq!(config.get_domain(), "example.org");
    assert_eq!(config.get_web_url(), "https://example.org/hub");
    assert_eq!(config.get_socket_url(), "wss://example.org/hub");
    assert_eq!(config.get_negotiate_url(), "https://example.org/hub/negotiate");
    assert!(matches!(config.get_authentication(), Authentication::Anonymous));
}

#[test]
fn builders_replace_and_append() {
    let mut config = ConnectionConfiguration::new("example.org".to_string(), "hub".to_string());
    config.unsecure().get_socket_url();
    assert_eq!(config.with_hub("other".to_string()).get_socket_url(), "ws://example.org/other");
    assert_eq!(config.secure().get_socket_url(), "wss://example.org/other");
    assert_eq!(config.with_port(8080).get_domain(), "example.org:8080");
    assert_eq!(config.with_port(0).get_domain(), "example.org:0");
    assert_eq!(config.with_port(-17).get_domain(), "example.org:-17");
    assert_eq!(config.with_port(i32::MAX).get_domain(), "example.org:2147483647");
    assert_eq!(config.with_port(i32::MIN).get_domain(), "example.org:-2147483648");
    config.with_port(1);
    config.with_query_param("a".to_string(), "1".to_string());
    assert_eq!(config.get_web_url(), "https://example.org:1/other?a=1");
    config.with_query_param("b".to_string(), "".to_string());
    config.with_query_param("".to_string(), "3".to_string());
    assert_eq!(config.get_web_url(), "https://example.org:1/other?a=1&b=&=3");
    assert_eq!(config.get_negotiate_url(), "https://example.org:1/other?a=1&b=&=3&negotiate");
}

#[test]
fn negotiate_suffix_depends_on_the_query_parameters_alone() {
    let mut config = ConnectionConfiguration::new("example.org".to_string(), "hub?x".to_string());
    config.unsecure();
    assert_eq!(config.get_negotiate_url(), "http://example.org/hub?x/negotiate");
}

#[test]
fn authentication_modes() {
    let mut config = ConnectionConfiguration::new("example.org".to_string(), "hub".to_string());
    config.authenticate_basic("user".to_string(), Some("secret".to_string()));
    match config.get_authentication() {
        Authentication::Basic { user, password } => {
            assert_eq!(user, "user");
            assert_eq!(password, Some("secret".to_string()));
        }
        _ => panic!("basic credentials were expected"),
    }
    config.authenticate_basic("user".to_string(), None);
    assert!(matches!(config.get_authentication(), Authentication::Basic { password: None, .. }));
    config.authenticate_bearer("token".to_string());
    match config.get_authentication() {
        Authentication::Bearer { token } => assert_eq!(token, "token"),
        _ => panic!("a bearer token was expected"),
    }
}

#[test]
fn decimal_rendering() {
    assert_eq!(u64_text(0), "0");
    assert_eq!(u64_text(9), "9");
    assert_eq!(u64_text(10), "10");
    assert_eq!(u64_text(1234567890), "1234567890");
    assert_eq!(u64_text(u64::MAX), "18446744073709551615");
    assert_eq!(usize_text(305), "305");
    assert_eq!(i32_text(-5), "-5");
    assert_eq!(i32_text(0), "0");
}
