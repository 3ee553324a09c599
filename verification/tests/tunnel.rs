use hyper_proxy::tunnel::{Tunnel, TunnelStep};
use hyper_proxy::{Error, Headers, Uri};

fn fake_proxy_uri() -> Uri {
    Uri::new(
        Some("http".to_string()),
        Some("example.com".to_string()),
        None,
        Some("/".to_string()),
    )
}

fn tunnel(host: &str, port: u16) -> Tunnel {
    hyper_proxy::tunnel::new(&fake_proxy_uri(), host, port, &Headers::new()).start()
}

/// Drives the write phase to completion and checks the request bytes.
fn write_all_expecting(t: &mut Tunnel, host: &str, port: u16) {
    let expected = format!(
        "CONNECT {0}:{1} HTTP/1.1\r\nHost: {0}:{1}\r\n\r\n",
        host, port
    )
    .into_bytes();
    assert_eq!(t.pending_write().as_slice(), &expected[..]);
    let n = t.pending_write().len();
    assert!(matches!(t.step_write(n), TunnelStep::Progress));
}

#[test]
fn test_tunnel() {
    let host = "127.0.0.1";
    let port = 41337;
    let mut t = tunnel(host, port);
    write_all_expecting(&mut t, host, port);
    let step = t.step_read(b"HTTP/1.1 200 OK\r\n\r\n");
    assert!(matches!(step, TunnelStep::Established));
}

#[test]
fn test_tunnel_eof() {
    let host = "127.0.0.1";
    let port = 41338;
    let mut t = tunnel(host, port);
    write_all_expecting(&mut t, host, port);
    let step = t.step_read(b"HTTP/1.1 200 OK");
    assert!(matches!(step, TunnelStep::Progress));
    let step = t.step_read(b"");
    assert!(matches!(step, TunnelStep::Aborted(Error::UnexpectedEOF)));
}

#[test]
fn test_tunnel_bad_response() {
    let host = "127.0.0.1";
    let port = 41339;
    let mut t = tunnel(host, port);
    write_all_expecting(&mut t, host, port);
    let step = t.step_read(b"foo bar baz hallo");
    assert!(matches!(step, TunnelStep::Aborted(Error::UnsuccessfulTunnel(_))));
}

#[test]
fn test_connect_request_round_trip() {
    let t = hyper_proxy::tunnel::new(&fake_proxy_uri(), "example.com", 80, &Headers::new());
    assert_eq!(
        t.buf.as_slice(),
        b"CONNECT example.com:80 HTTP/1.1\r\nHost: example.com:80\r\n\r\n" as &[u8]
    );
}

#[test]
fn test_connect_request_renders_headers_in_order() {
    let mut headers = Headers::new();
    headers.insert("proxy-authorization".to_string(), "Basic xyz".to_string());
    headers.insert("x-extra".to_string(), "1".to_string());
    let t = hyper_proxy::tunnel::new(&fake_proxy_uri(), "example.com", 8080, &headers);
    let expected = b"CONNECT example.com:8080 HTTP/1.1\r\nHost: example.com:8080\r\n\
                     proxy-authorization: Basic xyz\r\nx-extra: 1\r\n\r\n";
    assert_eq!(t.buf.as_slice(), &expected[..]);
}

#[test]
fn test_tunnel_partial_writes() {
    let host = "example.com";
    let port = 80;
    let mut t = tunnel(host, port);
    let full = t.pending_write().len();
    assert!(matches!(t.step_write(10), TunnelStep::Progress));
    assert_eq!(t.pending_write().len(), full - 10);
    let rest = t.pending_write().len();
    assert!(matches!(t.step_write(rest), TunnelStep::Progress));
    let step = t.step_read(b"HTTP/1.1 200 OK\r\n\r\n");
    assert!(matches!(step, TunnelStep::Established));
}

#[test]
fn test_tunnel_write_eof() {
    let mut t = tunnel("example.com", 80);
    assert!(matches!(t.step_write(3), TunnelStep::Progress));
    let step = t.step_write(0);
    assert!(matches!(step, TunnelStep::Aborted(Error::UnexpectedEOF)));
}

#[test]
fn test_tunnel_response_in_pieces() {
    let mut t = tunnel("example.com", 80);
    let n = t.pending_write().len();
    assert!(matches!(t.step_write(n), TunnelStep::Progress));
    assert!(matches!(t.step_read(b"HTTP/1.1 2"), TunnelStep::Progress));
    assert!(matches!(t.step_read(b"00 OK\r\n"), TunnelStep::Progress));
    assert!(matches!(t.step_read(b"\r\n"), TunnelStep::Established));
}

#[test]
fn test_tunnel_auth_required() {
    let mut t = tunnel("example.com", 443);
    let n = t.pending_write().len();
    assert!(matches!(t.step_write(n), TunnelStep::Progress));
    let step = t.step_read(b"HTTP/1.1 407 Proxy Authentication Required\r\n\r\n");
    assert!(matches!(
        step,
        TunnelStep::Aborted(Error::ProxyAuthenticationRequired)
    ));
}

#[test]
fn test_tunnel_redirect_with_location() {
    let mut t = tunnel("example.com", 443);
    let n = t.pending_write().len();
    assert!(matches!(t.step_write(n), TunnelStep::Progress));
    let step = t.step_read(b"HTTP/1.1 301 Moved\r\nLocation: http://other.example/\r\n\r\n");
    match step {
        TunnelStep::Aborted(Error::ProxyRedirect {
            status_code,
            location,
            proxy_uri,
        }) => {
            assert_eq!(status_code, 301);
            assert_eq!(location.host, Some("other.example".to_string()));
            assert_eq!(location.scheme, Some("http".to_string()));
            assert_eq!(proxy_uri, fake_proxy_uri());
        }
        other => panic!("unexpected step: {:?}", step_name(&other)),
    }
}

#[test]
fn test_tunnel_redirect_without_location() {
    let mut t = tunnel("example.com", 443);
    let n = t.pending_write().len();
    assert!(matches!(t.step_write(n), TunnelStep::Progress));
    let step = t.step_read(b"HTTP/1.1 302 Found\r\nServer: mock\r\n\r\n");
    assert!(matches!(
        step,
        TunnelStep::Aborted(Error::MissingProxyRedirectLocation { code: 302 })
    ));
}

#[test]
fn test_tunnel_refused_status_carries_text() {
    let mut t = tunnel("example.com", 443);
    let n = t.pending_write().len();
    assert!(matches!(t.step_write(n), TunnelStep::Progress));
    let step = t.step_read(b"HTTP/1.1 503 Busy\r\n\r\n");
    match step {
        TunnelStep::Aborted(Error::UnsuccessfulTunnel(text)) => {
            assert_eq!(text, "HTTP/1.1 503 Busy\r\n\r\n");
        }
        other => panic!("unexpected step: {:?}", step_name(&other)),
    }
}

#[test]
fn test_tunnel_refused_status_text_is_lossy() {
    let mut t = tunnel("example.com", 443);
    let n = t.pending_write().len();
    assert!(matches!(t.step_write(n), TunnelStep::Progress));
    let step = t.step_read(b"HTTP/1.1 500 \xff\r\n\r\n");
    match step {
        TunnelStep::Aborted(Error::UnsuccessfulTunnel(text)) => {
            assert_eq!(text, "HTTP/1.1 500 \u{fffd}\r\n\r\n");
        }
        other => panic!("unexpected step: {:?}", step_name(&other)),
    }
}

#[test]
fn test_tunnel_redirect_with_unparseable_location() {
    let mut t = tunnel("example.com", 443);
    let n = t.pending_write().len();
    assert!(matches!(t.step_write(n), TunnelStep::Progress));
    let step = t.step_read(b"HTTP/1.1 301 Moved\r\nLocation: http://exa mple/\r\n\r\n");
    assert!(matches!(
        step,
        TunnelStep::Aborted(Error::MissingProxyRedirectLocation { code: 301 })
    ));
}

#[test]
fn test_tunnel_too_many_headers() {
    let mut t = tunnel("example.com", 443);
    let n = t.pending_write().len();
    assert!(matches!(t.step_write(n), TunnelStep::Progress));
    let mut response = String::from("HTTP/1.1 200 OK\r\n");
    for i in 0..17 {
        response.push_str(&format!("x-h{}: v\r\n", i));
    }
    response.push_str("\r\n");
    let step = t.step_read(response.as_bytes());
    assert!(matches!(step, TunnelStep::Aborted(Error::UnsuccessfulTunnel(_))));
}

fn step_name(step: &TunnelStep) -> &'static str {
    match step {
        TunnelStep::Progress => "progress",
        TunnelStep::Established => "established",
        TunnelStep::Aborted(_) => "aborted",
    }
}
