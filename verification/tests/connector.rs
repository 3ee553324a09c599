use hyper_proxy::{
    proxy_dst, BoxConnector, ConnectionPlan, Error, Intercept, Proxy, ProxyConnector, ProxyStream,
    Uri,
};

fn uri(scheme: Option<&str>, host: Option<&str>, port: Option<u16>, path: Option<&str>) -> Uri {
    Uri::new(
        scheme.map(str::to_string),
        host.map(str::to_string),
        port,
        path.map(str::to_string),
    )
}

fn target(scheme: &str, host: &str, port: Option<u16>) -> Uri {
    uri(Some(scheme), Some(host), port, Some("/page?q=1"))
}

fn all_proxy() -> Proxy {
    Proxy::new(
        Intercept::All,
        uri(Some("http"), Some("proxy.example"), Some(8100), Some("/")),
    )
}

#[test]
fn test_plan_direct_without_matching_proxy() {
    let connector = ProxyConnector::unsecured(());
    let plan = connector.connect_plan(&target("http", "t.example", None)).unwrap();
    assert!(matches!(plan, ConnectionPlan::Direct));
}

#[test]
fn test_plan_forward_rewrites_to_proxy() {
    let connector = ProxyConnector::from_proxy_unsecured((), all_proxy());
    let plan = connector.connect_plan(&target("http", "t.example", Some(8080))).unwrap();
    match plan {
        ConnectionPlan::Forward(u) => {
            assert_eq!(u.scheme, Some("http".to_string()));
            assert_eq!(u.host, Some("proxy.example".to_string()));
            assert_eq!(u.port, Some(8100));
            assert_eq!(u.path_and_query, Some("/page?q=1".to_string()));
        }
        _ => panic!("expected a forward plan"),
    }
}

#[test]
fn test_plan_tunnel_for_secure_target() {
    let connector = ProxyConnector::from_proxy((), all_proxy());
    let plan = connector.connect_plan(&target("https", "t.example", None)).unwrap();
    match plan {
        ConnectionPlan::Tunnel {
            connect_to,
            handshake,
            secure,
        } => {
            assert!(secure);
            assert_eq!(connect_to.host, Some("proxy.example".to_string()));
            assert_eq!(connect_to.port, Some(8100));
            let expected = b"CONNECT t.example:443 HTTP/1.1\r\nHost: t.example:443\r\n\r\n";
            assert_eq!(handshake.buf.as_slice(), &expected[..]);
            assert_eq!(handshake.proxy_uri.host, Some("proxy.example".to_string()));
        }
        _ => panic!("expected a tunnel plan"),
    }
}

#[test]
fn test_plan_forced_tunnel_uses_plain_port_default() {
    let mut p = all_proxy();
    p.force_connect();
    let connector = ProxyConnector::from_proxy_unsecured((), p);
    let plan = connector.connect_plan(&target("http", "t.example", None)).unwrap();
    match plan {
        ConnectionPlan::Tunnel {
            handshake, secure, ..
        } => {
            assert!(!secure);
            let expected = b"CONNECT t.example:80 HTTP/1.1\r\nHost: t.example:80\r\n\r\n";
            assert_eq!(handshake.buf.as_slice(), &expected[..]);
        }
        _ => panic!("expected a tunnel plan"),
    }
}

#[test]
fn test_plan_refuses_secure_target_without_tls() {
    let connector = ProxyConnector::from_proxy_unsecured((), all_proxy());
    let err = connector.connect_plan(&target("https", "t.example", None)).unwrap_err();
    assert_eq!(err, Error::Configuration);
}

#[test]
fn test_set_tls_restores_secure_targets() {
    let mut connector = ProxyConnector::from_proxy_unsecured((), all_proxy());
    connector.set_tls(true);
    assert!(connector.connect_plan(&target("https", "t.example", None)).is_ok());
    connector.set_tls(false);
    assert_eq!(
        connector.connect_plan(&target("https", "t.example", None)).unwrap_err(),
        Error::Configuration
    );
}

#[test]
fn test_proxy_dst_requires_scheme_and_host() {
    let dst = target("http", "t.example", None);
    let no_scheme = uri(None, Some("proxy.example"), None, Some("/"));
    assert!(matches!(
        proxy_dst(&dst, &no_scheme),
        Err(Error::MissingUriScheme(_))
    ));
    let no_host = uri(Some("http"), None, None, Some("/"));
    assert!(matches!(
        proxy_dst(&dst, &no_host),
        Err(Error::MissingUriHost(_))
    ));
    let ok = proxy_dst(&dst, &uri(Some("http"), Some("proxy.example"), Some(1), Some("/"))).unwrap();
    assert_eq!(ok.host, Some("proxy.example".to_string()));
    assert_eq!(ok.path_and_query, Some("/page?q=1".to_string()));
}

#[test]
fn test_plan_direct_when_target_has_no_host() {
    let connector = ProxyConnector::from_proxy_unsecured((), all_proxy());
    let hostless = uri(Some("http"), None, None, Some("/"));
    let plan = connector.connect_plan(&hostless).unwrap();
    assert!(matches!(plan, ConnectionPlan::Direct));
}

#[test]
fn test_stream_proxied_flags() {
    assert!(!ProxyStream::NoProxy(7u8).is_proxied());
    assert!(ProxyStream::Regular(7u8).is_proxied());
    assert!(ProxyStream::Secured(7u8).is_proxied());
    assert_eq!(*ProxyStream::Regular(9u8).get_ref(), 9u8);
    assert_eq!(ProxyStream::Secured(5u8).into_inner(), 5u8);
}

#[test]
fn test_box_connector_wraps() {
    let b = BoxConnector(41u32);
    assert_eq!(*b.get_ref(), 41);
    assert_eq!(b.clone().0, 41);
}

#[test]
fn test_transport_error_kinds_carry_their_detail() {
    let io = Error::Io("connection reset".to_string());
    assert_eq!(io, Error::Io("connection reset".to_string()));
    let tls = Error::TlsError("handshake failed".to_string());
    assert!(matches!(tls, Error::TlsError(ref m) if m == "handshake failed"));
}
