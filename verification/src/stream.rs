//! The unified stream tag: one value for a direct, a forwarded, or a
//! tunnelled connection.
use vstd::prelude::*;

verus! {

/// A connection as the HTTP client sees it, tagged with how it was made.
/// Every variant owns its inner stream; reads and writes go straight
/// through to it.
pub enum ProxyStream<R> {
    /// No proxy was involved.
    NoProxy(R),
    /// The connection goes to a proxy that forwards plain requests; no
    /// tunnel was made.
    Regular(R),
    /// The connection runs through an established `CONNECT` tunnel,
    /// possibly secured.
    Secured(R),
}

impl<R> ProxyStream<R> {
    /// Whether this connection went through a proxy: every variant but a
    /// direct one did.
    pub fn is_proxied(&self) -> (r: bool)
        ensures
            r == !(self is NoProxy),
    {
        match self {
            ProxyStream::NoProxy(_) => false,
            ProxyStream::Regular(_) => true,
            ProxyStream::Secured(_) => true,
        }
    }

    /// The inner stream.
    pub fn get_ref(&self) -> (r: &R)
        ensures
            self matches ProxyStream::NoProxy(s) ==> r == s,
            self matches ProxyStream::Regular(s) ==> r == s,
            self matches ProxyStream::Secured(s) ==> r == s,
    {
        match self {
            ProxyStream::NoProxy(s) => s,
            ProxyStream::Regular(s) => s,
            ProxyStream::Secured(s) => s,
        }
    }

    /// Gives the inner stream up.
    pub fn into_inner(self) -> (r: R)
        ensures
            self matches ProxyStream::NoProxy(s) ==> r == s,
            self matches ProxyStream::Regular(s) ==> r == s,
            self matches ProxyStream::Secured(s) ==> r == s,
    {
        match self {
            ProxyStream::NoProxy(s) => s,
            ProxyStream::Regular(s) => s,
            ProxyStream::Secured(s) => s,
        }
    }
}

} // verus!
