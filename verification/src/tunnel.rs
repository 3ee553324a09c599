//! The `CONNECT` handshake: building the request, and the state machine
//! that feeds it out and classifies the proxy's answer.
use vstd::prelude::*;
use vstd::utf8::encode_utf8;
use crate::error::Error;
use crate::header::Headers;
use crate::response;
use crate::response::{SpecHead, ends_crlfcrlf, spec_find_location, spec_parse_head};
use crate::uri::{Uri, uri_of};

verus! {

/// The decimal digits of `n`, most significant first.
pub open spec fn dec_digits(n: nat) -> Seq<u8>
    decreases n,
{
    if n < 10 {
        seq![(48 + n) as u8]
    } else {
        dec_digits(n / 10).push((48 + n % 10) as u8)
    }
}

/// The decimal digits of `n`, most significant first.
fn u16_dec(n: u16) -> (r: Vec<u8>)
    ensures
        r@ == dec_digits(n as nat),
    decreases n,
{
    if n < 10 {
        let mut v: Vec<u8> = Vec::new();
        v.push(48 + (n as u8));
        proof {
            assert(v@ =~= dec_digits(n as nat));
        }
        v
    } else {
        let mut v = u16_dec(n / 10);
        v.push(48 + ((n % 10) as u8));
        v
    }
}

/// The bytes `CONNECT `.
pub open spec fn connect_prefix() -> Seq<u8> {
    seq![67u8, 79u8, 78u8, 78u8, 69u8, 67u8, 84u8, 32u8]
}

/// The bytes ` HTTP/1.1\r\nHost: `.
pub open spec fn version_and_host() -> Seq<u8> {
    seq![
        32u8,
        72u8,
        84u8,
        84u8,
        80u8,
        47u8,
        49u8,
        46u8,
        49u8,
        13u8,
        10u8,
        72u8,
        111u8,
        115u8,
        116u8,
        58u8,
        32u8,
    ]
}

/// The bytes `\r\n`.
pub open spec fn crlf() -> Seq<u8> {
    seq![13u8, 10u8]
}

/// Each header rendered as `Name: Value` followed by CRLF, in order.
pub open spec fn rendered_headers(hs: Seq<(Seq<char>, Seq<char>)>) -> Seq<u8>
    decreases hs.len(),
{
    if hs.len() == 0 {
        Seq::empty()
    } else {
        rendered_headers(hs.drop_last()) + encode_utf8(hs.last().0) + seq![58u8, 32u8]
            + encode_utf8(hs.last().1) + crlf()
    }
}

/// The full `CONNECT` request for the given target and headers:
/// `CONNECT host:port HTTP/1.1`, a matching `Host` line, the extra headers
/// in order, and a closing blank line, all CRLF-separated.
pub open spec fn connect_request_bytes(
    host: Seq<char>,
    port: u16,
    headers: Seq<(Seq<char>, Seq<char>)>,
) -> Seq<u8> {
    connect_prefix() + encode_utf8(host) + seq![58u8] + dec_digits(port as nat)
        + version_and_host() + encode_utf8(host) + seq![58u8] + dec_digits(port as nat) + crlf()
        + rendered_headers(headers) + crlf()
}

/// Appends the UTF-8 bytes of `s`.
fn push_str_bytes(out: &mut Vec<u8>, s: &str)
    ensures
        final(out)@ == old(out)@ + encode_utf8(s@),
{
    let b = s.as_bytes();
    let n = b.len();
    let mut j: usize = 0;
    proof {
        assert(out@ =~= old(out)@ + b@.take(0));
    }
    while j < n
        invariant
            j <= n,
            n == b@.len(),
            b@ == encode_utf8(s@),
            out@ == old(out)@ + b@.take(j as int),
        decreases n - j,
    {
        out.push(b[j]);
        j = j + 1;
        proof {
            assert(old(out)@ + b@.take(j as int) =~= (old(out)@ + b@.take(j as int - 1)).push(
                b@[j as int - 1],
            ));
        }
    }
    proof {
        assert(b@.take(n as int) =~= b@);
    }
}

/// Appends the decimal digits of `port`.
fn push_port(out: &mut Vec<u8>, port: u16)
    ensures
        final(out)@ == old(out)@ + dec_digits(port as nat),
{
    let mut d = u16_dec(port);
    out.append(&mut d);
}

/// Appends CRLF.
fn push_crlf(out: &mut Vec<u8>)
    ensures
        final(out)@ == old(out)@ + crlf(),
{
    out.push(13);
    out.push(10);
    proof {
        assert(out@ =~= old(out)@ + crlf());
    }
}

/// Appends the bytes `CONNECT `.
fn push_connect_prefix(out: &mut Vec<u8>)
    ensures
        final(out)@ == old(out)@ + connect_prefix(),
{
    out.push(67);
    out.push(79);
    out.push(78);
    out.push(78);
    out.push(69);
    out.push(67);
    out.push(84);
    out.push(32);
    proof {
        assert(out@ =~= old(out)@ + connect_prefix());
    }
}

/// Appends the bytes ` HTTP/1.1\r\nHost: `.
fn push_version_and_host(out: &mut Vec<u8>)
    ensures
        final(out)@ == old(out)@ + version_and_host(),
{
    out.push(32);
    out.push(72);
    out.push(84);
    out.push(84);
    out.push(80);
    out.push(47);
    out.push(49);
    out.push(46);
    out.push(49);
    out.push(13);
    out.push(10);
    out.push(72);
    out.push(111);
    out.push(115);
    out.push(116);
    out.push(58);
    out.push(32);
    proof {
        assert(out@ =~= old(out)@ + version_and_host());
    }
}

/// A handshake whose request bytes are built but not yet fed to any stream.
#[derive(Debug)]
pub struct TunnelConnect {
    pub proxy_uri: Uri,
    pub buf: Vec<u8>,
}

/// Creates a new tunnel handshake through the given proxy: the request
/// bytes are built once, here.
pub fn new(proxy_uri: &Uri, target_host: &str, port: u16, headers: &Headers) -> (r: TunnelConnect)
    ensures
        r.buf@ == connect_request_bytes(target_host@, port, headers@),
        r.proxy_uri@ == proxy_uri@,
{
    let mut out: Vec<u8> = Vec::new();
    push_connect_prefix(&mut out);
    push_str_bytes(&mut out, target_host);
    out.push(58);
    push_port(&mut out, port);
    push_version_and_host(&mut out);
    push_str_bytes(&mut out, target_host);
    out.push(58);
    push_port(&mut out, port);
    push_crlf(&mut out);
    let ghost before_headers = out@;
    let n = headers.len();
    let mut i: usize = 0;
    proof {
        assert(rendered_headers(headers@.take(0)) =~= Seq::<u8>::empty());
        assert(out@ =~= before_headers + rendered_headers(headers@.take(0)));
    }
    while i < n
        invariant
            i <= n,
            n == headers@.len(),
            out@ == before_headers + rendered_headers(headers@.take(i as int)),
        decreases n - i,
    {
        let ghost out_before = out@;
        let (hn, hv) = headers.entry_at(i);
        push_str_bytes(&mut out, hn);
        out.push(58);
        out.push(32);
        push_str_bytes(&mut out, hv);
        push_crlf(&mut out);
        proof {
            let hs = headers@.take(i as int + 1);
            assert(hs.drop_last() =~= headers@.take(i as int));
            assert(hs.last() == headers@[i as int]);
            assert(out@ =~= out_before + encode_utf8(headers@[i as int].0) + seq![58u8, 32u8]
                + encode_utf8(headers@[i as int].1) + crlf());
            assert(out@ =~= before_headers + rendered_headers(hs));
        }
        i = i + 1;
    }
    proof {
        assert(headers@.take(n as int) =~= headers@);
    }
    push_crlf(&mut out);
    proof {
        assert(out@ =~= connect_request_bytes(target_host@, port, headers@));
    }
    TunnelConnect { proxy_uri: proxy_uri.clone(), buf: out }
}

impl TunnelConnect {
    /// Begins the handshake: the returned session starts in the writing
    /// phase with the whole request pending.
    pub fn start(self) -> (r: Tunnel)
        ensures
            r.proxy_uri == self.proxy_uri,
            r.buf == self.buf,
            r.state is Writing,
    {
        Tunnel { proxy_uri: self.proxy_uri, buf: self.buf, state: TunnelState::Writing }
    }
}

/// The phase a tunnel handshake is in.
#[derive(Debug)]
pub enum TunnelState {
    /// The request is still being written; the buffer holds what is left of
    /// it.
    Writing,
    /// The request is fully written; the buffer accumulates the answer.
    Reading,
    /// The proxy accepted; the stream now carries the target's bytes.
    Completed,
    /// The handshake failed; the stream is of no further use.
    Failed,
}

/// What one step of the handshake decided.
#[derive(Debug)]
pub enum TunnelStep {
    /// Nothing settled yet: keep driving the current phase.
    Progress,
    /// The proxy accepted the tunnel.
    Established,
    /// The handshake is over and failed with this error.
    Aborted(Error),
}

/// What a fully buffered answer means for the handshake.
pub ghost enum Verdict {
    /// Not a whole head yet: keep reading.
    KeepReading,
    /// Status 200 and the buffer ends at the blank line: the tunnel stands.
    Established,
    /// The bytes can never become a response head.
    BadParse,
    /// A redirect status with a `Location` header carrying these bytes.
    Redirect { status: u16, location: Seq<u8> },
    /// A redirect status without a `Location` header.
    RedirectNoLocation { status: u16 },
    /// Status 407: the proxy wants credentials.
    AuthRequired,
    /// Any other status: the proxy refused the tunnel.
    Refused,
}

/// Classifies the answer bytes read so far.
pub open spec fn response_verdict(s: Seq<u8>) -> Verdict {
    match spec_parse_head(s) {
        SpecHead::Incomplete => Verdict::KeepReading,
        SpecHead::Malformed => Verdict::BadParse,
        SpecHead::Parsed { status, end, headers } => if status == 200 {
            if ends_crlfcrlf(s) {
                Verdict::Established
            } else {
                Verdict::KeepReading
            }
        } else if 301 <= status <= 399 {
            match spec_find_location(headers) {
                Option::Some(l) => Verdict::Redirect { status, location: l },
                Option::None => Verdict::RedirectNoLocation { status },
            }
        } else if status == 407 {
            Verdict::AuthRequired
        } else {
            Verdict::Refused
        },
    }
}

/// The text that stands in for the answer bytes in a diagnostic; invalid
/// byte runs are replaced, so it depends on the bytes alone.
pub uninterp spec fn lossy_text_of(bytes: Seq<u8>) -> Seq<char>;

/// Relies on std's `String::from_utf8_lossy`: the text depends on the bytes
/// alone.
#[verifier::external_body]
fn lossy_string(bytes: &[u8]) -> (r: String)
    ensures
        r@ == lossy_text_of(bytes@),
{
    String::from_utf8_lossy(bytes).into_owned()
}

/// A `CONNECT` handshake in progress. The caller does the transport's
/// reads and writes and reports them here; this type decides everything
/// else.
#[derive(Debug)]
pub struct Tunnel {
    pub proxy_uri: Uri,
    pub buf: Vec<u8>,
    pub state: TunnelState,
}

impl Tunnel {
    /// The bytes of the request that are still to be written.
    pub fn pending_write(&self) -> (r: &Vec<u8>)
        ensures
            r@ == self.buf@,
    {
        &self.buf
    }

    /// Reports that `n` bytes of the pending request went out. A write of
    /// nothing while bytes are pending means the proxy hung up; draining
    /// the buffer moves the handshake to the reading phase.
    pub fn step_write(&mut self, n: usize) -> (r: TunnelStep)
        requires
            old(self).state is Writing,
            n <= old(self).buf@.len(),
        ensures
            final(self).proxy_uri == old(self).proxy_uri,
            n == old(self).buf@.len() ==> final(self).state is Reading && final(self).buf@
                == Seq::<u8>::empty() && r is Progress,
            n < old(self).buf@.len() && n > 0 ==> final(self).state is Writing && final(self).buf@
                == old(self).buf@.skip(n as int) && r is Progress,
            n == 0 && old(self).buf@.len() > 0 ==> final(self).state is Failed && r
                == TunnelStep::Aborted(Error::UnexpectedEOF),
    {
        if n == self.buf.len() {
            self.buf.clear();
            self.state = TunnelState::Reading;
            TunnelStep::Progress
        } else if n == 0 {
            self.state = TunnelState::Failed;
            TunnelStep::Aborted(Error::UnexpectedEOF)
        } else {
            let rest = response::copy_range(self.buf.as_slice(), n, self.buf.len());
            proof {
                assert(rest@ =~= self.buf@.skip(n as int));
            }
            self.buf = rest;
            TunnelStep::Progress
        }
    }

    /// Reports what one read of the transport brought in. An empty read
    /// while the head is unfinished means the proxy hung up; otherwise the
    /// grown buffer is classified and the handshake completes, fails, or
    /// keeps reading.
    pub fn step_read(&mut self, chunk: &[u8]) -> (r: TunnelStep)
        requires
            old(self).state is Reading,
        ensures
            final(self).proxy_uri == old(self).proxy_uri,
            chunk@.len() == 0 ==> final(self).state is Failed && r == TunnelStep::Aborted(
                Error::UnexpectedEOF,
            ),
            chunk@.len() > 0 ==> final(self).buf@ == old(self).buf@ + chunk@ && (match response_verdict(
                old(self).buf@ + chunk@,
            ) {
                Verdict::KeepReading => final(self).state is Reading && r is Progress,
                Verdict::Established => final(self).state is Completed && r is Established,
                Verdict::BadParse => final(self).state is Failed && (r matches TunnelStep::Aborted(
                    Error::UnsuccessfulTunnel(m),
                ) && m@ == "failed to parse proxy http response"@),
                Verdict::Redirect { status, location } => final(self).state is Failed && (match uri_of(
                    location,
                ) {
                    Option::Some(u) => (r matches TunnelStep::Aborted(
                        Error::ProxyRedirect { status_code, location: l, proxy_uri },
                    ) && status_code == status && l@ == u && proxy_uri@ == old(self).proxy_uri@),
                    Option::None => r == TunnelStep::Aborted(
                        Error::MissingProxyRedirectLocation { code: status },
                    ),
                }),
                Verdict::RedirectNoLocation { status } => final(self).state is Failed && r
                    == TunnelStep::Aborted(Error::MissingProxyRedirectLocation { code: status }),
                Verdict::AuthRequired => final(self).state is Failed && r == TunnelStep::Aborted(
                    Error::ProxyAuthenticationRequired,
                ),
                Verdict::Refused => final(self).state is Failed && (r matches TunnelStep::Aborted(
                    Error::UnsuccessfulTunnel(m),
                ) && m@ == lossy_text_of(old(self).buf@ + chunk@)),
            }),
    {
        if chunk.len() == 0 {
            self.state = TunnelState::Failed;
            return TunnelStep::Aborted(Error::UnexpectedEOF);
        }
        let m = chunk.len();
        let mut j: usize = 0;
        proof {
            assert(self.buf@ =~= old(self).buf@ + chunk@.take(0));
        }
        while j < m
            invariant
                j <= m,
                m == chunk@.len(),
                self.buf@ == old(self).buf@ + chunk@.take(j as int),
                self.state == old(self).state,
                self.proxy_uri == old(self).proxy_uri,
            decreases m - j,
        {
            self.buf.push(chunk[j]);
            j = j + 1;
            proof {
                assert(old(self).buf@ + chunk@.take(j as int) =~= (old(self).buf@ + chunk@.take(
                    j as int - 1,
                )).push(chunk@[j as int - 1]));
            }
        }
        proof {
            assert(chunk@.take(m as int) =~= chunk@);
        }
        match response::parse_head(self.buf.as_slice()) {
            response::ParseOutcome::Incomplete => TunnelStep::Progress,
            response::ParseOutcome::Malformed => {
                self.state = TunnelState::Failed;
                TunnelStep::Aborted(
                    Error::UnsuccessfulTunnel("failed to parse proxy http response".to_owned()),
                )
            },
            response::ParseOutcome::Parsed(h) => {
                if h.status == 200 {
                    if response::buffer_ends_crlfcrlf(&self.buf) {
                        self.state = TunnelState::Completed;
                        TunnelStep::Established
                    } else {
                        TunnelStep::Progress
                    }
                } else if 301 <= h.status && h.status <= 399 {
                    match response::find_location(&h.headers) {
                        Option::Some(loc) => match crate::uri::parse_uri_bytes(loc.as_slice()) {
                            Option::Some(u) => {
                                self.state = TunnelState::Failed;
                                TunnelStep::Aborted(
                                    Error::ProxyRedirect {
                                        status_code: h.status,
                                        location: u,
                                        proxy_uri: self.proxy_uri.clone(),
                                    },
                                )
                            },
                            Option::None => {
                                self.state = TunnelState::Failed;
                                TunnelStep::Aborted(
                                    Error::MissingProxyRedirectLocation { code: h.status },
                                )
                            },
                        },
                        Option::None => {
                            self.state = TunnelState::Failed;
                            TunnelStep::Aborted(
                                Error::MissingProxyRedirectLocation { code: h.status },
                            )
                        },
                    }
                } else if h.status == 407 {
                    self.state = TunnelState::Failed;
                    TunnelStep::Aborted(Error::ProxyAuthenticationRequired)
                } else {
                    self.state = TunnelState::Failed;
                    let text = lossy_string(self.buf.as_slice());
                    TunnelStep::Aborted(Error::UnsuccessfulTunnel(text))
                }
            },
        }
    }
}

} // verus!
