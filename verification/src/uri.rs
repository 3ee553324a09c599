//! A plain-value model of the parts of a URI that proxy routing reads.
use vstd::prelude::*;

verus! {

/// Compares two string slices by contents.
pub fn str_eq(a: &str, b: &str) -> (r: bool)
    ensures
        r == (a@ == b@),
{
    let x: String = a.to_owned();
    let y: String = b.to_owned();
    x == y
}

/// The view of an `Option<String>`: the character sequence, if present.
pub open spec fn opt_string_view(o: Option<String>) -> Option<Seq<char>> {
    match o {
        Option::Some(s) => Option::Some(s@),
        Option::None => Option::None,
    }
}

/// The view of an `Option<&str>`: the character sequence, if present.
pub open spec fn opt_str_view(o: Option<&str>) -> Option<Seq<char>> {
    match o {
        Option::Some(s) => Option::Some(s@),
        Option::None => Option::None,
    }
}

/// The parts of a request target or proxy address that the routing logic
/// reads: scheme, host, port, and the path-and-query tail. Absent parts are
/// `None`, as in a URI that names no explicit port.
#[derive(Debug, PartialEq)]
pub struct Uri {
    pub scheme: Option<String>,
    pub host: Option<String>,
    pub port: Option<u16>,
    pub path_and_query: Option<String>,
}

/// Mathematical view of a [`Uri`]: each textual part as a sequence of
/// characters.
pub ghost struct UriView {
    pub scheme: Option<Seq<char>>,
    pub host: Option<Seq<char>>,
    pub port: Option<u16>,
    pub path_and_query: Option<Seq<char>>,
}

impl View for Uri {
    type V = UriView;

    open spec fn view(&self) -> UriView {
        UriView {
            scheme: opt_string_view(self.scheme),
            host: opt_string_view(self.host),
            port: self.port,
            path_and_query: opt_string_view(self.path_and_query),
        }
    }
}

impl Clone for Uri {
    /// The copy reads as the same URI.
    fn clone(&self) -> (r: Uri)
        ensures
            r@ == self@,
    {
        Uri {
            scheme: match &self.scheme {
                Option::Some(s) => Option::Some(s.clone()),
                Option::None => Option::None,
            },
            host: match &self.host {
                Option::Some(s) => Option::Some(s.clone()),
                Option::None => Option::None,
            },
            port: self.port,
            path_and_query: match &self.path_and_query {
                Option::Some(s) => Option::Some(s.clone()),
                Option::None => Option::None,
            },
        }
    }
}

impl Uri {
    /// Builds a URI value from its parts.
    pub fn new(
        scheme: Option<String>,
        host: Option<String>,
        port: Option<u16>,
        path_and_query: Option<String>,
    ) -> (r: Uri)
        ensures
            r@.scheme == opt_string_view(scheme),
            r@.host == opt_string_view(host),
            r@.port == port,
            r@.path_and_query == opt_string_view(path_and_query),
    {
        Uri { scheme, host, port, path_and_query }
    }

    /// The scheme part, if the URI named one.
    pub fn scheme(&self) -> (r: Option<&str>)
        ensures
            opt_str_view(r) == self@.scheme,
    {
        match &self.scheme {
            Option::Some(s) => Option::Some(s.as_str()),
            Option::None => Option::None,
        }
    }

    /// The host part, if the URI named one.
    pub fn host(&self) -> (r: Option<&str>)
        ensures
            opt_str_view(r) == self@.host,
    {
        match &self.host {
            Option::Some(s) => Option::Some(s.as_str()),
            Option::None => Option::None,
        }
    }

    /// The explicit port, if the URI named one.
    pub fn port_u16(&self) -> (r: Option<u16>)
        ensures
            r == self@.port,
    {
        self.port
    }

    /// The path-and-query tail, if the URI has one.
    pub fn path_and_query(&self) -> (r: Option<&str>)
        ensures
            opt_str_view(r) == self@.path_and_query,
    {
        match &self.path_and_query {
            Option::Some(s) => Option::Some(s.as_str()),
            Option::None => Option::None,
        }
    }

    /// True exactly when the scheme is `https`.
    pub fn is_https(&self) -> (r: bool)
        ensures
            r == (self@.scheme == Option::Some("https"@)),
    {
        match &self.scheme {
            Option::Some(s) => str_eq(s.as_str(), "https"),
            Option::None => false,
        }
    }

    /// True exactly when the scheme is `http`.
    pub fn is_http(&self) -> (r: bool)
        ensures
            r == (self@.scheme == Option::Some("http"@)),
    {
        match &self.scheme {
            Option::Some(s) => str_eq(s.as_str(), "http"),
            Option::None => false,
        }
    }
}


/// Which URI, if any, the given bytes parse as: present exactly when the
/// bytes form a URI, with the parts that URI names. The outcome depends on
/// the bytes alone.
pub uninterp spec fn uri_of(bytes: Seq<u8>) -> Option<UriView>;

/// Relies on the `http` crate's URI parser (`http::Uri::try_from` on bytes):
/// whether the bytes form a URI, and which scheme, host, port and
/// path-and-query they name, depend on the bytes alone.
#[verifier::external_body]
pub(crate) fn parse_uri_bytes(bytes: &[u8]) -> (r: Option<Uri>)
    ensures
        (r is Some) == (uri_of(bytes@) is Some),
        (r matches Option::Some(u) ==> uri_of(bytes@) == Option::Some(u@)),
{
    match http::Uri::try_from(bytes) {
        Ok(u) => Option::Some(Uri {
            scheme: u.scheme_str().map(|s: &str| s.to_string()),
            host: u.host().map(|h: &str| h.to_string()),
            port: u.port_u16(),
            path_and_query: u.path_and_query().map(|p: &http::uri::PathAndQuery| p.as_str().to_string()),
        }),
        Err(_) => Option::None,
    }
}

} // verus!
