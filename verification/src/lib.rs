//! Routing of outbound connections through HTTP forward proxies: rule-based
//! proxy selection, `CONNECT` tunnel negotiation, and a unified stream tag.
use vstd::prelude::*;

pub mod box_connector;
pub mod error;
pub mod header;
pub mod response;
pub mod stream;
pub mod tunnel;
pub mod uri;

pub use box_connector::BoxConnector;
pub use error::Error;
pub use header::Headers;
pub use stream::ProxyStream;
pub use uri::Uri;

use crate::uri::{opt_str_view, str_eq};

verus! {

/// Default port for a plain-scheme target when the URI names none.
pub const DEFAULT_HTTP_PORT: u16 = 80;

/// Default port for any other scheme when the URI names none.
pub const DEFAULT_HTTPS_PORT: u16 = 443;

/// Anything that can say which scheme, host and port a connection is for.
pub trait Dst {
    /// The scheme, as a mathematical value.
    spec fn scheme_spec(&self) -> Option<Seq<char>>;

    /// The host, as a mathematical value.
    spec fn host_spec(&self) -> Option<Seq<char>>;

    /// The port, as a mathematical value.
    spec fn port_spec(&self) -> Option<u16>;

    /// Returns the connection scheme, e.g. "http" or "https".
    fn scheme(&self) -> (r: Option<&str>)
        ensures
            opt_str_view(r) == self.scheme_spec(),
    ;

    /// Returns the host of the connection.
    fn host(&self) -> (r: Option<&str>)
        ensures
            opt_str_view(r) == self.host_spec(),
    ;

    /// Returns the port for the connection.
    fn port(&self) -> (r: Option<u16>)
        ensures
            r == self.port_spec(),
    ;
}

impl Dst for Uri {
    open spec fn scheme_spec(&self) -> Option<Seq<char>> {
        self@.scheme
    }

    open spec fn host_spec(&self) -> Option<Seq<char>> {
        self@.host
    }

    open spec fn port_spec(&self) -> Option<u16> {
        self@.port
    }

    fn scheme(&self) -> (r: Option<&str>) {
        self.scheme()
    }

    fn host(&self) -> (r: Option<&str>) {
        self.host()
    }

    fn port(&self) -> (r: Option<u16>) {
        self.port_u16()
    }
}

/// A caller-supplied predicate over scheme, host and port; the behaviour of
/// the [`Intercept::Custom`] rule.
pub trait InterceptFilter {
    /// What the predicate decides, as a mathematical function of the parts.
    spec fn spec_allows(
        &self,
        scheme: Option<Seq<char>>,
        host: Option<Seq<char>>,
        port: Option<u16>,
    ) -> bool;

    /// Evaluates the predicate on one candidate destination.
    fn allows(&self, scheme: Option<&str>, host: Option<&str>, port: Option<u16>) -> (r: bool)
        ensures
            r == self.spec_allows(opt_str_view(scheme), opt_str_view(host), port),
    ;
}

/// A custom rule to proxy destinations that a caller-supplied predicate
/// accepts.
#[derive(Clone)]
pub struct Custom(pub std::sync::Arc<Box<dyn InterceptFilter>>);

/// The rule deciding which destinations go through a proxy.
#[derive(Clone)]
pub enum Intercept {
    /// Every destination goes through the proxy.
    All,
    /// Only plain `http` destinations go through the proxy.
    Http,
    /// Only `https` destinations go through the proxy.
    Https,
    /// No destination goes through this proxy.
    Never,
    /// Destinations accepted by a caller-supplied predicate go through the
    /// proxy.
    Custom(Custom),
}

impl Intercept {
    /// What [`Intercept::matches`] returns, as a mathematical function of the
    /// destination's parts.
    pub open spec fn spec_matches(
        &self,
        scheme: Option<Seq<char>>,
        host: Option<Seq<char>>,
        port: Option<u16>,
    ) -> bool {
        match self {
            Intercept::All => true,
            Intercept::Http => scheme == Option::Some("http"@),
            Intercept::Https => scheme == Option::Some("https"@),
            Intercept::Never => false,
            Intercept::Custom(c) => c.0.spec_allows(scheme, host, port),
        }
    }

    /// A function to check if the given destination is proxied under this
    /// rule.
    pub fn matches<D: Dst>(&self, uri: &D) -> (r: bool)
        ensures
            r == self.spec_matches(uri.scheme_spec(), uri.host_spec(), uri.port_spec()),
    {
        match self {
            Intercept::All => true,
            Intercept::Http => match uri.scheme() {
                Option::Some(s) => str_eq(s, "http"),
                Option::None => false,
            },
            Intercept::Https => match uri.scheme() {
                Option::Some(s) => str_eq(s, "https"),
                Option::None => false,
            },
            Intercept::Never => false,
            Intercept::Custom(c) => c.0.allows(uri.scheme(), uri.host(), uri.port()),
        }
    }
}

/// A proxy a connector can route destinations through: its intercept rule,
/// its address, the headers to send it, and whether a tunnel is forced.
#[derive(Clone)]
pub struct Proxy {
    pub intercept: Intercept,
    pub force_connect: bool,
    pub headers: Headers,
    pub uri: Uri,
}

impl Proxy {
    /// Create a new `Proxy` with the given rule and address, no extra
    /// headers, and tunnelling not forced.
    pub fn new(intercept: Intercept, uri: Uri) -> (r: Proxy)
        ensures
            r.intercept == intercept,
            r.uri == uri,
            r.headers@ == Seq::<(Seq<char>, Seq<char>)>::empty(),
            r.force_connect == false,
    {
        Proxy { intercept, uri, headers: Headers::new(), force_connect: false }
    }

    /// Installs HTTP basic credentials for this proxy. A rule that matches
    /// only plain traffic gets a normal `authorization` header (no tunnel is
    /// formed, so it goes to the origin); a rule that matches only secure
    /// traffic gets `proxy-authorization` (sent during `CONNECT`); any other
    /// rule gets both.
    pub fn set_authorization(&mut self, username: &str, password: &str)
        ensures
            (old(self).intercept is Http) ==> final(self).headers@ == header::inserted(
                old(self).headers@,
                "authorization"@,
                header::basic_auth_of(username@, password@),
            ),
            (old(self).intercept is Https) ==> final(self).headers@ == header::inserted(
                old(self).headers@,
                "proxy-authorization"@,
                header::basic_auth_of(username@, password@),
            ),
            (!(old(self).intercept is Http) && !(old(self).intercept is Https))
                ==> final(self).headers@ == header::inserted(
                header::inserted(
                    old(self).headers@,
                    "authorization"@,
                    header::basic_auth_of(username@, password@),
                ),
                "proxy-authorization"@,
                header::basic_auth_of(username@, password@),
            ),
            final(self).intercept == old(self).intercept,
            final(self).force_connect == old(self).force_connect,
            final(self).uri == old(self).uri,
    {
        let value = header::basic_auth_header_value(username, password);
        match &self.intercept {
            Intercept::Http => {
                self.headers.insert("authorization".to_owned(), value);
            },
            Intercept::Https => {
                self.headers.insert("proxy-authorization".to_owned(), value);
            },
            _ => {
                self.headers.insert("authorization".to_owned(), value.clone());
                self.headers.insert("proxy-authorization".to_owned(), value);
            },
        }
    }

    /// Forces the use of the CONNECT method even for plain destinations.
    pub fn force_connect(&mut self)
        ensures
            final(self).force_connect == true,
            final(self).intercept == old(self).intercept,
            final(self).headers == old(self).headers,
            final(self).uri == old(self).uri,
    {
        self.force_connect = true;
    }

    /// Set a custom header to send to this proxy.
    pub fn set_header(&mut self, name: String, value: String)
        ensures
            final(self).headers@ == header::inserted(old(self).headers@, name@, value@),
            final(self).intercept == old(self).intercept,
            final(self).force_connect == old(self).force_connect,
            final(self).uri == old(self).uri,
    {
        self.headers.insert(name, value);
    }

    /// Get the current intercept rule.
    pub fn intercept(&self) -> (r: &Intercept)
        ensures
            *r == self.intercept,
    {
        &self.intercept
    }

    /// Get the headers that are sent to this proxy.
    pub fn headers(&self) -> (r: &Headers)
        ensures
            *r == self.headers,
    {
        &self.headers
    }

    /// Get the proxy's address.
    pub fn uri(&self) -> (r: &Uri)
        ensures
            *r == self.uri,
    {
        &self.uri
    }
}


/// The inner sequence of an optional one, empty when absent.
pub open spec fn opt_seq(o: Option<Seq<char>>) -> Seq<char> {
    match o {
        Option::Some(s) => s,
        Option::None => Seq::empty(),
    }
}

/// The port a destination is connected on: the explicit one, else 80 for
/// the plain scheme and 443 for anything else.
pub open spec fn effective_port(t: uri::UriView) -> u16 {
    match t.port {
        Option::Some(p) => p,
        Option::None => if t.scheme == Option::Some("http"@) {
            DEFAULT_HTTP_PORT
        } else {
            DEFAULT_HTTPS_PORT
        },
    }
}

/// The position of the first configured proxy whose rule matches the given
/// destination parts, if any.
pub open spec fn spec_match_index(
    proxies: Seq<Proxy>,
    scheme: Option<Seq<char>>,
    host: Option<Seq<char>>,
    port: Option<u16>,
) -> Option<int>
    decreases proxies.len(),
{
    if proxies.len() == 0 {
        Option::None
    } else if proxies[0].intercept.spec_matches(scheme, host, port) {
        Option::Some(0)
    } else {
        match spec_match_index(proxies.drop_first(), scheme, host, port) {
            Option::Some(i) => Option::Some(i + 1),
            Option::None => Option::None,
        }
    }
}

/// What selection returns is exactly the first matching proxy: a selected
/// index is in range, its rule matches, and no earlier rule does; no index
/// is selected only when no rule matches.
pub proof fn lemma_match_index_characterizes(
    proxies: Seq<Proxy>,
    scheme: Option<Seq<char>>,
    host: Option<Seq<char>>,
    port: Option<u16>,
)
    ensures
        match spec_match_index(proxies, scheme, host, port) {
            Option::Some(k) => 0 <= k < proxies.len() && proxies[k].intercept.spec_matches(
                scheme,
                host,
                port,
            ) && (forall|m: int|
                0 <= m < k ==> !proxies[m].intercept.spec_matches(scheme, host, port)),
            Option::None => forall|m: int|
                0 <= m < proxies.len() ==> !proxies[m].intercept.spec_matches(scheme, host, port),
        },
    decreases proxies.len(),
{
    if proxies.len() > 0 {
        if !proxies[0].intercept.spec_matches(scheme, host, port) {
            lemma_match_index_characterizes(proxies.drop_first(), scheme, host, port);
            assert forall|m: int| 1 <= m < proxies.len() implies proxies[m]
                == proxies.drop_first()[m - 1] by {
                assert(proxies.drop_first()[m - 1] == proxies[m]);
            }
        }
    }
}

/// Selection is order-stable: when a proxy at position `i` matches a
/// destination, whatever is selected stands at `i` or earlier — of two
/// matching proxies, the earlier-registered one wins.
pub proof fn lemma_selection_order_stable(
    proxies: Seq<Proxy>,
    scheme: Option<Seq<char>>,
    host: Option<Seq<char>>,
    port: Option<u16>,
    i: int,
)
    requires
        0 <= i < proxies.len(),
        proxies[i].intercept.spec_matches(scheme, host, port),
    ensures
        spec_match_index(proxies, scheme, host, port) matches Option::Some(k) && k <= i,
{
    lemma_match_index_characterizes(proxies, scheme, host, port);
}

/// Selection is idempotent: against an unmodified configuration, the same
/// destination parts select the same position, as often as asked — the
/// selection is a function of the configuration and those parts alone.
pub proof fn lemma_selection_idempotent(
    proxies: Seq<Proxy>,
    scheme: Option<Seq<char>>,
    host: Option<Seq<char>>,
    port: Option<u16>,
)
    ensures
        spec_match_index(proxies, scheme, host, port) == spec_match_index(
            proxies,
            scheme,
            host,
            port,
        ),
{
}

/// Rewrites `dst` to point at the proxy: the proxy's scheme, host and port
/// with `dst`'s path-and-query. The proxy URI must name a scheme and a
/// host, else the matching configuration error is returned before any
/// transport work.
pub fn proxy_dst(dst: &Uri, proxy: &Uri) -> (r: Result<Uri, Error>)
    ensures
        proxy@.scheme is None ==> (r matches Err(Error::MissingUriScheme(u)) && u@ == proxy@),
        proxy@.scheme is Some && proxy@.host is None ==> (r matches Err(Error::MissingUriHost(u))
            && u@ == proxy@),
        proxy@.scheme is Some && proxy@.host is Some ==> (r matches Ok(u) && u@.scheme
            == proxy@.scheme && u@.host == proxy@.host && u@.port == proxy@.port
            && u@.path_and_query == dst@.path_and_query),
{
    if proxy.scheme.is_none() {
        return Err(Error::MissingUriScheme(proxy.clone()));
    }
    if proxy.host.is_none() {
        return Err(Error::MissingUriHost(proxy.clone()));
    }
    let rewritten = proxy.clone();
    let dst_copy = dst.clone();
    Ok(
        Uri {
            scheme: rewritten.scheme,
            host: rewritten.host,
            port: rewritten.port,
            path_and_query: dst_copy.path_and_query,
        },
    )
}

/// What a connection attempt should do, decided before any transport work.
#[derive(Debug)]
pub enum ConnectionPlan {
    /// No proxy matched: open the target directly.
    Direct,
    /// A proxy matched and no tunnel is needed: open this rewritten address
    /// and speak plain HTTP through the proxy.
    Forward(Uri),
    /// A proxy matched and a tunnel is needed: open `connect_to`, drive the
    /// handshake there, and secure the resulting stream when `secure` says
    /// so.
    Tunnel { connect_to: Uri, handshake: tunnel::TunnelConnect, secure: bool },
}

/// A wrapper around `Proxy`s with a connector.
#[derive(Clone)]
pub struct ProxyConnector<C> {
    pub proxies: Vec<Proxy>,
    pub connector: C,
    pub tls: bool,
}

impl<C> ProxyConnector<C> {
    /// Create a new proxy connector that can secure tunnelled streams.
    pub fn new(connector: C) -> (r: Self)
        ensures
            r.proxies@ == Seq::<Proxy>::empty(),
            r.tls == true,
            r.connector == connector,
    {
        ProxyConnector { proxies: Vec::new(), connector, tls: true }
    }

    /// Create a new proxy connector without any way to secure a stream:
    /// tunnelling to a secure-scheme destination is then refused.
    pub fn unsecured(connector: C) -> (r: Self)
        ensures
            r.proxies@ == Seq::<Proxy>::empty(),
            r.tls == false,
            r.connector == connector,
    {
        ProxyConnector { proxies: Vec::new(), connector, tls: false }
    }

    /// Create a securing proxy connector and attach a particular proxy.
    pub fn from_proxy(connector: C, proxy: Proxy) -> (r: Self)
        ensures
            r.proxies@ == seq![proxy],
            r.tls == true,
            r.connector == connector,
    {
        let mut c = ProxyConnector::new(connector);
        c.proxies.push(proxy);
        proof {
            assert(c.proxies@ =~= seq![proxy]);
        }
        c
    }

    /// Create an unsecured proxy connector and attach a particular proxy.
    pub fn from_proxy_unsecured(connector: C, proxy: Proxy) -> (r: Self)
        ensures
            r.proxies@ == seq![proxy],
            r.tls == false,
            r.connector == connector,
    {
        let mut c = ProxyConnector::unsecured(connector);
        c.proxies.push(proxy);
        proof {
            assert(c.proxies@ =~= seq![proxy]);
        }
        c
    }

    /// Change the underlying connector, keeping proxies and the security
    /// capability.
    pub fn with_connector<CC>(self, connector: CC) -> (r: ProxyConnector<CC>)
        ensures
            r.proxies == self.proxies,
            r.tls == self.tls,
            r.connector == connector,
    {
        ProxyConnector { connector, proxies: self.proxies, tls: self.tls }
    }

    /// Grant or withdraw the capability to secure tunnelled streams.
    pub fn set_tls(&mut self, tls: bool)
        ensures
            final(self).tls == tls,
            final(self).proxies == old(self).proxies,
            final(self).connector == old(self).connector,
    {
        self.tls = tls;
    }

    /// Get the current proxies.
    pub fn proxies(&self) -> (r: &Vec<Proxy>)
        ensures
            r@ == self.proxies@,
    {
        &self.proxies
    }

    /// Add a new additional proxy.
    pub fn add_proxy(&mut self, proxy: Proxy)
        ensures
            final(self).proxies@ == old(self).proxies@.push(proxy),
            final(self).tls == old(self).tls,
            final(self).connector == old(self).connector,
    {
        self.proxies.push(proxy);
    }

    /// Extend the list of proxies.
    pub fn extend_proxies(&mut self, proxies: Vec<Proxy>)
        ensures
            final(self).proxies@ == old(self).proxies@ + proxies@,
            final(self).tls == old(self).tls,
            final(self).connector == old(self).connector,
    {
        let mut more = proxies;
        self.proxies.append(&mut more);
    }

    /// The first configured proxy whose rule matches the destination, if
    /// any.
    pub fn match_proxy<D: Dst>(&self, uri: &D) -> (r: Option<&Proxy>)
        ensures
            (r is Some) == (spec_match_index(
                self.proxies@,
                uri.scheme_spec(),
                uri.host_spec(),
                uri.port_spec(),
            ) is Some),
            (r matches Option::Some(p) ==> spec_match_index(
                self.proxies@,
                uri.scheme_spec(),
                uri.host_spec(),
                uri.port_spec(),
            ) matches Option::Some(k) && *p == self.proxies@[k]),
    {
        let n = self.proxies.len();
        let mut i: usize = 0;
        while i < n
            invariant
                i <= n,
                n == self.proxies@.len(),
                forall|m: int|
                    0 <= m < i ==> !self.proxies@[m].intercept.spec_matches(
                        uri.scheme_spec(),
                        uri.host_spec(),
                        uri.port_spec(),
                    ),
            decreases n - i,
        {
            if self.proxies[i].intercept.matches(uri) {
                proof {
                    lemma_match_index_characterizes(
                        self.proxies@,
                        uri.scheme_spec(),
                        uri.host_spec(),
                        uri.port_spec(),
                    );
                }
                return Option::Some(&self.proxies[i]);
            }
            i = i + 1;
        }
        proof {
            lemma_match_index_characterizes(
                self.proxies@,
                uri.scheme_spec(),
                uri.host_spec(),
                uri.port_spec(),
            );
        }
        Option::None
    }

    /// The headers a caller must attach to a plain request for the proxy
    /// that would carry it: present exactly when the destination is a plain
    /// `http` one that a configured proxy matches.
    pub fn http_headers(&self, uri: &Uri) -> (r: Option<&Headers>)
        ensures
            uri@.scheme != Option::Some("http"@) ==> r is None,
            uri@.scheme == Option::Some("http"@) ==> match spec_match_index(
                self.proxies@,
                uri@.scheme,
                uri@.host,
                uri@.port,
            ) {
                Option::Some(k) => (r matches Option::Some(h) && *h == self.proxies@[k].headers),
                Option::None => r is None,
            },
    {
        if !uri.is_http() {
            return Option::None;
        }
        match self.match_proxy(uri) {
            Option::Some(p) => Option::Some(&p.headers),
            Option::None => Option::None,
        }
    }

    /// Decides, without any transport work, what connecting to `target`
    /// takes: a direct opening, a rewritten plain forward through a proxy,
    /// or a `CONNECT` handshake — or a configuration error. A secure-scheme
    /// target behind a proxy is refused here when the connector cannot
    /// secure the tunnel, never silently downgraded.
    pub fn connect_plan(&self, target: &Uri) -> (r: Result<ConnectionPlan, Error>)
        requires
            (spec_match_index(self.proxies@, target@.scheme, target@.host, target@.port) is Some
                && target@.host is Some) ==> target@.path_and_query is Some,
        ensures
            match spec_match_index(self.proxies@, target@.scheme, target@.host, target@.port) {
                Option::None => r == Ok::<ConnectionPlan, Error>(ConnectionPlan::Direct),
                Option::Some(i) => {
                    let p = self.proxies@[i];
                    if target@.host is None {
                        r == Ok::<ConnectionPlan, Error>(ConnectionPlan::Direct)
                    } else if target@.scheme == Option::Some("https"@) || p.force_connect {
                        if target@.scheme == Option::Some("https"@) && !self.tls {
                            r == Err::<ConnectionPlan, Error>(Error::Configuration)
                        } else if p.uri@.scheme is None {
                            (r matches Err(Error::MissingUriScheme(u)) && u@ == p.uri@)
                        } else if p.uri@.host is None {
                            (r matches Err(Error::MissingUriHost(u)) && u@ == p.uri@)
                        } else {
                            (r matches Ok(ConnectionPlan::Tunnel { connect_to, handshake, secure })
                                && connect_to@.scheme == p.uri@.scheme && connect_to@.host
                                == p.uri@.host && connect_to@.port == p.uri@.port
                                && connect_to@.path_and_query == target@.path_and_query
                                && handshake.proxy_uri@ == p.uri@ && handshake.buf@
                                == tunnel::connect_request_bytes(
                                opt_seq(target@.host),
                                effective_port(target@),
                                p.headers@,
                            ) && secure == (target@.scheme == Option::Some("https"@)))
                        }
                    } else {
                        if p.uri@.scheme is None {
                            (r matches Err(Error::MissingUriScheme(u)) && u@ == p.uri@)
                        } else if p.uri@.host is None {
                            (r matches Err(Error::MissingUriHost(u)) && u@ == p.uri@)
                        } else {
                            (r matches Ok(ConnectionPlan::Forward(u)) && u@.scheme == p.uri@.scheme
                                && u@.host == p.uri@.host && u@.port == p.uri@.port
                                && u@.path_and_query == target@.path_and_query)
                        }
                    }
                },
            },
    {
        let matched = self.match_proxy(target);
        match matched {
            Option::None => Ok(ConnectionPlan::Direct),
            Option::Some(proxy) => {
                match target.host() {
                    Option::None => Ok(ConnectionPlan::Direct),
                    Option::Some(host) => {
                        let secure = target.is_https();
                        if secure || proxy.force_connect {
                            if secure && !self.tls {
                                return Err(Error::Configuration);
                            }
                            let port = match target.port_u16() {
                                Option::Some(p) => p,
                                Option::None => if target.is_http() {
                                    DEFAULT_HTTP_PORT
                                } else {
                                    DEFAULT_HTTPS_PORT
                                },
                            };
                            let handshake = tunnel::new(&proxy.uri, host, port, &proxy.headers);
                            match proxy_dst(target, &proxy.uri) {
                                Ok(u) => Ok(
                                    ConnectionPlan::Tunnel { connect_to: u, handshake, secure },
                                ),
                                Err(e) => Err(e),
                            }
                        } else {
                            match proxy_dst(target, &proxy.uri) {
                                Ok(u) => Ok(ConnectionPlan::Forward(u)),
                                Err(e) => Err(e),
                            }
                        }
                    },
                }
            },
        }
    }
}


/// The all-accepting and the never-accepting rules are constant functions
/// of the destination: the first matches every destination, the second
/// none.
pub proof fn lemma_constant_rules(
    scheme: Option<Seq<char>>,
    host: Option<Seq<char>>,
    port: Option<u16>,
)
    ensures
        Intercept::All.spec_matches(scheme, host, port),
        !Intercept::Never.spec_matches(scheme, host, port),
{
}

/// Matching is pure: what a rule decides is fully determined by the
/// destination's scheme, host and port, so two destinations presenting the
/// same parts are matched alike, however often asked.
pub proof fn lemma_matches_pure<D1: Dst, D2: Dst>(rule: &Intercept, a: &D1, b: &D2)
    requires
        a.scheme_spec() == b.scheme_spec(),
        a.host_spec() == b.host_spec(),
        a.port_spec() == b.port_spec(),
    ensures
        rule.spec_matches(a.scheme_spec(), a.host_spec(), a.port_spec()) == rule.spec_matches(
            b.scheme_spec(),
            b.host_spec(),
            b.port_spec(),
        ),
{
}

} // verus!
