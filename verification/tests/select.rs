use hyper_proxy::{Intercept, Proxy, ProxyConnector, Uri};

fn uri(scheme: &str, host: &str, port: Option<u16>) -> Uri {
    Uri::new(
        Some(scheme.to_string()),
        Some(host.to_string()),
        port,
        Some("/".to_string()),
    )
}

fn proxy(intercept: Intercept, host: &str) -> Proxy {
    Proxy::new(
        intercept,
        uri("http", host, Some(8100)),
    )
}

#[test]
fn test_match_all_is_constant() {
    let rule = Intercept::All;
    assert!(rule.matches(&uri("http", "a.example", None)));
    assert!(rule.matches(&uri("https", "b.example", Some(8443))));
    assert!(rule.matches(&Uri::new(None, None, None, None)));
}

#[test]
fn test_match_never_is_constant() {
    let rule = Intercept::Never;
    assert!(!rule.matches(&uri("http", "a.example", None)));
    assert!(!rule.matches(&uri("https", "b.example", Some(8443))));
    assert!(!rule.matches(&Uri::new(None, None, None, None)));
}

#[test]
fn test_match_by_scheme() {
    assert!(Intercept::Http.matches(&uri("http", "a.example", None)));
    assert!(!Intercept::Http.matches(&uri("https", "a.example", None)));
    assert!(Intercept::Https.matches(&uri("https", "a.example", None)));
    assert!(!Intercept::Https.matches(&uri("http", "a.example", None)));
    assert!(!Intercept::Http.matches(&Uri::new(None, None, None, None)));
}

#[test]
fn test_selection_first_registered_wins() {
    let connector = ProxyConnector::from_proxy_unsecured((), proxy(Intercept::All, "first.proxy"));
    let mut connector = connector;
    connector.add_proxy(proxy(Intercept::All, "second.proxy"));
    let selected = connector.match_proxy(&uri("http", "target.example", None)).unwrap();
    assert_eq!(selected.uri.host, Some("first.proxy".to_string()));
}

#[test]
fn test_selection_skips_non_matching() {
    let mut connector = ProxyConnector::unsecured(());
    connector.add_proxy(proxy(Intercept::Https, "secure.proxy"));
    connector.add_proxy(proxy(Intercept::Http, "plain.proxy"));
    let selected = connector.match_proxy(&uri("http", "target.example", None)).unwrap();
    assert_eq!(selected.uri.host, Some("plain.proxy".to_string()));
    assert!(connector.match_proxy(&uri("ftp", "target.example", None)).is_none());
}

#[test]
fn test_selection_idempotent() {
    let mut connector = ProxyConnector::unsecured(());
    connector.add_proxy(proxy(Intercept::Https, "secure.proxy"));
    connector.add_proxy(proxy(Intercept::All, "broad.proxy"));
    let target = uri("https", "target.example", Some(8443));
    let first = connector.match_proxy(&target).unwrap().uri.clone();
    let second = connector.match_proxy(&target).unwrap().uri.clone();
    assert_eq!(first, second);
    assert_eq!(first.host, Some("secure.proxy".to_string()));
}

#[test]
fn test_http_headers_only_for_plain_targets() {
    let mut p = proxy(Intercept::All, "proxy.example");
    p.set_header("x-routed".to_string(), "yes".to_string());
    let connector = ProxyConnector::from_proxy_unsecured((), p);
    let plain = connector.http_headers(&uri("http", "target.example", None));
    let entries = plain.expect("a matching plain target has headers").entries();
    assert_eq!(
        entries.as_slice(),
        &[("x-routed".to_string(), "yes".to_string())][..]
    );
    assert!(connector.http_headers(&uri("https", "target.example", None)).is_none());
}

#[test]
fn test_extend_proxies_keeps_order() {
    let mut connector = ProxyConnector::unsecured(());
    connector.add_proxy(proxy(Intercept::Never, "sleepy.proxy"));
    connector.extend_proxies(vec![
        proxy(Intercept::All, "broad.proxy"),
        proxy(Intercept::All, "late.proxy"),
    ]);
    assert_eq!(connector.proxies().len(), 3);
    let selected = connector.match_proxy(&uri("http", "target.example", None)).unwrap();
    assert_eq!(selected.uri.host, Some("broad.proxy".to_string()));
}

struct LoopbackOnly;

impl hyper_proxy::InterceptFilter for LoopbackOnly {
    fn spec_allows(
        &self,
        _scheme: Option<vstd::seq::Seq<char>>,
        _host: Option<vstd::seq::Seq<char>>,
        _port: Option<u16>,
    ) -> bool {
        unreachable!()
    }

    fn allows(&self, _scheme: Option<&str>, host: Option<&str>, _port: Option<u16>) -> bool {
        host == Some("127.0.0.1")
    }
}

#[test]
fn test_custom_rule_consults_the_predicate() {
    let rule = Intercept::Custom(hyper_proxy::Custom(std::sync::Arc::new(Box::new(LoopbackOnly))));
    assert!(rule.matches(&uri("http", "127.0.0.1", Some(8100))));
    assert!(!rule.matches(&uri("http", "target.example", Some(8100))));
}
