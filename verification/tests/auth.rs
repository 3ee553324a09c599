use hyper_proxy::{Intercept, Proxy, Uri};

fn proxy(intercept: Intercept) -> Proxy {
    Proxy::new(
        intercept,
        Uri::new(
            Some("http".to_string()),
            Some("proxy.example".to_string()),
            Some(8100),
            Some("/".to_string()),
        ),
    )
}

const ALADDIN: &str = "Basic QWxhZGRpbjpvcGVuIHNlc2FtZQ==";

#[test]
fn test_authorization_for_plain_only_rule() {
    let mut p = proxy(Intercept::Http);
    p.set_authorization("Aladdin", "open sesame");
    assert_eq!(
        p.headers().entries().as_slice(),
        &[("authorization".to_string(), ALADDIN.to_string())][..]
    );
}

#[test]
fn test_authorization_for_secure_only_rule() {
    let mut p = proxy(Intercept::Https);
    p.set_authorization("Aladdin", "open sesame");
    assert_eq!(
        p.headers().entries().as_slice(),
        &[("proxy-authorization".to_string(), ALADDIN.to_string())][..]
    );
}

#[test]
fn test_authorization_for_broad_rule_installs_both() {
    let mut p = proxy(Intercept::All);
    p.set_authorization("Aladdin", "open sesame");
    assert_eq!(
        p.headers().entries().as_slice(),
        &[
            ("authorization".to_string(), ALADDIN.to_string()),
            ("proxy-authorization".to_string(), ALADDIN.to_string()),
        ][..]
    );
}

#[test]
fn test_set_header_replaces_same_name() {
    let mut p = proxy(Intercept::All);
    p.set_header("x-tag".to_string(), "one".to_string());
    p.set_header("x-other".to_string(), "keep".to_string());
    p.set_header("x-tag".to_string(), "two".to_string());
    assert_eq!(
        p.headers().entries().as_slice(),
        &[
            ("x-other".to_string(), "keep".to_string()),
            ("x-tag".to_string(), "two".to_string()),
        ][..]
    );
}

#[test]
fn test_force_connect_flag() {
    let mut p = proxy(Intercept::All);
    assert!(!p.force_connect);
    p.force_connect();
    assert!(p.force_connect);
    assert!(matches!(p.intercept(), Intercept::All));
    assert_eq!(p.uri().host, Some("proxy.example".to_string()));
}
