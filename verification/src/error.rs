//! The error values that a connection attempt can surface.
use vstd::prelude::*;
use crate::uri::Uri;

verus! {

/// Everything that can go wrong while selecting a proxy, negotiating a
/// `CONNECT` tunnel, or layering security on top of it.
#[derive(Clone, Debug, PartialEq)]
pub enum Error {
    /// A transport-level failure, with its description.
    Io(String),
    /// The peer closed the connection in the middle of the handshake.
    UnexpectedEOF,
    /// The proxy refused the tunnel, or its response could not be read;
    /// carries a diagnostic.
    UnsuccessfulTunnel(String),
    /// The proxy answered with status 407.
    ProxyAuthenticationRequired,
    /// The proxy answered with a redirect status and a usable `Location`.
    ProxyRedirect { status_code: u16, location: Uri, proxy_uri: Uri },
    /// The proxy answered with a redirect status but no usable `Location`.
    MissingProxyRedirectLocation { code: u16 },
    /// The configured proxy URI names no host.
    MissingUriHost(Uri),
    /// The configured proxy URI names no scheme.
    MissingUriScheme(Uri),
    /// The secure layering on top of an established tunnel failed.
    TlsError(String),
    /// A secure-scheme target was requested, but the connector was built
    /// without any capability to secure the tunnel.
    Configuration,
}

} // verus!
