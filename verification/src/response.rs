//! Parsing of an HTTP/1.x response head: status line and headers, ending at
//! the blank line.
//!
//! The grammar accepted here is
//!
//! ```text
//! head        := status-line header-line* CRLF
//! status-line := "HTTP/1." ("0" | "1") SP DIGIT DIGIT DIGIT (CRLF | SP reason CRLF)
//! reason      := any bytes free of CR and LF
//! header-line := name ":" OWS value CRLF
//! ```
//!
//! where a header name is any nonempty run of bytes free of `:`, CR and LF,
//! a value is any run of bytes free of CR and LF, and OWS is a run of spaces
//! and horizontal tabs. At most 16 header lines are accepted; more make the
//! head malformed.
use vstd::prelude::*;

verus! {

/// Carriage return.
pub const CR: u8 = 13;

/// Line feed.
pub const LF: u8 = 10;

/// Space.
pub const SP: u8 = 32;

/// Horizontal tab.
pub const HT: u8 = 9;

/// Colon.
pub const COLON: u8 = 58;

/// The most header lines a proxy response may carry.
pub const MAX_HEADERS: usize = 16;

/// Whether `b` is a decimal digit.
pub open spec fn is_digit(b: u8) -> bool {
    48 <= b <= 57
}

/// Outcome of scanning for one byte position.
pub ghost enum SpecScan {
    /// The buffer ended before the position was settled.
    Incomplete,
    /// A byte that the grammar refuses stood in the way.
    Malformed,
    /// The position scanned for.
    At(int),
}

/// Outcome of parsing the status line.
pub ghost enum SpecStatusLine {
    Incomplete,
    Malformed,
    /// Status code and the position just past the line's CRLF.
    Done { status: u16, next: int },
}

/// Outcome of parsing the header lines and the final blank line.
pub ghost enum SpecHeaderBlock {
    Incomplete,
    Malformed,
    /// The header name/value pairs in order, and the position just past the
    /// blank line.
    Done { headers: Seq<(Seq<u8>, Seq<u8>)>, end: int },
}

/// Outcome of parsing one header line.
pub ghost enum SpecHeaderLine {
    Incomplete,
    Malformed,
    /// Name, value, and the position just past the line's CRLF.
    Done { name: Seq<u8>, value: Seq<u8>, next: int },
}

/// Classification of a whole buffer as a response head.
pub ghost enum SpecHead {
    /// More bytes are needed.
    Incomplete,
    /// The bytes can never grow into a head this grammar accepts.
    Malformed,
    /// A complete head: its status, the position just past the blank line,
    /// and the headers.
    Parsed { status: u16, end: int, headers: Seq<(Seq<u8>, Seq<u8>)> },
}

/// The fixed bytes every status line starts with: `HTTP/1.`
pub open spec fn version_prefix() -> Seq<u8> {
    seq![72u8, 84u8, 84u8, 80u8, 47u8, 49u8, 46u8]
}

/// Compares `s` from `i` against the prefix `p` from `j`.
pub open spec fn spec_prefix(s: Seq<u8>, i: int, p: Seq<u8>, j: int) -> SpecScan
    decreases p.len() - j,
{
    if j >= p.len() {
        SpecScan::At(i)
    } else if i >= s.len() {
        SpecScan::Incomplete
    } else if s[i] != p[j] {
        SpecScan::Malformed
    } else {
        spec_prefix(s, i + 1, p, j + 1)
    }
}

/// Scans from `i` for the CR of a CRLF, refusing a bare CR or LF.
pub open spec fn spec_line_end(s: Seq<u8>, i: int) -> SpecScan
    decreases s.len() - i,
{
    if i >= s.len() {
        SpecScan::Incomplete
    } else if s[i] == CR {
        if i + 1 >= s.len() {
            SpecScan::Incomplete
        } else if s[i + 1] == LF {
            SpecScan::At(i)
        } else {
            SpecScan::Malformed
        }
    } else if s[i] == LF {
        SpecScan::Malformed
    } else {
        spec_line_end(s, i + 1)
    }
}

/// Scans from `i` for the colon ending a header name.
pub open spec fn spec_name_end(s: Seq<u8>, i: int) -> SpecScan
    decreases s.len() - i,
{
    if i >= s.len() {
        SpecScan::Incomplete
    } else if s[i] == COLON {
        SpecScan::At(i)
    } else if s[i] == CR || s[i] == LF {
        SpecScan::Malformed
    } else {
        spec_name_end(s, i + 1)
    }
}

/// The first position at or after `i` whose byte is not a space or tab.
pub open spec fn spec_skip_ows(s: Seq<u8>, i: int) -> int
    decreases s.len() - i,
{
    if i < s.len() && (s[i] == SP || s[i] == HT) {
        spec_skip_ows(s, i + 1)
    } else {
        i
    }
}

/// Parses the status line at the start of `s`.
pub open spec fn spec_status_line(s: Seq<u8>) -> SpecStatusLine {
    match spec_prefix(s, 0, version_prefix(), 0) {
        SpecScan::Incomplete => SpecStatusLine::Incomplete,
        SpecScan::Malformed => SpecStatusLine::Malformed,
        SpecScan::At(_) => if s.len() <= 7 {
            SpecStatusLine::Incomplete
        } else if s[7] != 48 && s[7] != 49 {
            SpecStatusLine::Malformed
        } else if s.len() <= 8 {
            SpecStatusLine::Incomplete
        } else if s[8] != SP {
            SpecStatusLine::Malformed
        } else if s.len() <= 9 {
            SpecStatusLine::Incomplete
        } else if !is_digit(s[9]) {
            SpecStatusLine::Malformed
        } else if s.len() <= 10 {
            SpecStatusLine::Incomplete
        } else if !is_digit(s[10]) {
            SpecStatusLine::Malformed
        } else if s.len() <= 11 {
            SpecStatusLine::Incomplete
        } else if !is_digit(s[11]) {
            SpecStatusLine::Malformed
        } else {
            let status = (100 * (s[9] - 48) + 10 * (s[10] - 48) + (s[11] - 48)) as u16;
            if s.len() <= 12 {
                SpecStatusLine::Incomplete
            } else if s[12] == CR {
                if s.len() <= 13 {
                    SpecStatusLine::Incomplete
                } else if s[13] == LF {
                    SpecStatusLine::Done { status, next: 14 }
                } else {
                    SpecStatusLine::Malformed
                }
            } else if s[12] == SP {
                match spec_line_end(s, 13) {
                    SpecScan::Incomplete => SpecStatusLine::Incomplete,
                    SpecScan::Malformed => SpecStatusLine::Malformed,
                    SpecScan::At(e) => SpecStatusLine::Done { status, next: e + 2 },
                }
            } else {
                SpecStatusLine::Malformed
            }
        },
    }
}

/// Parses one header line starting at `i`.
pub open spec fn spec_header_line(s: Seq<u8>, i: int) -> SpecHeaderLine {
    match spec_name_end(s, i) {
        SpecScan::Incomplete => SpecHeaderLine::Incomplete,
        SpecScan::Malformed => SpecHeaderLine::Malformed,
        SpecScan::At(c) => if c == i {
            SpecHeaderLine::Malformed
        } else {
            let v = spec_skip_ows(s, c + 1);
            match spec_line_end(s, v) {
                SpecScan::Incomplete => SpecHeaderLine::Incomplete,
                SpecScan::Malformed => SpecHeaderLine::Malformed,
                SpecScan::At(e) => SpecHeaderLine::Done {
                    name: s.subrange(i, c),
                    value: s.subrange(v, e),
                    next: e + 2,
                },
            }
        },
    }
}

/// Parses header lines from `i` until the blank line, `count` of them
/// already behind.
pub open spec fn spec_header_block(s: Seq<u8>, i: int, count: nat) -> SpecHeaderBlock
    decreases MAX_HEADERS + 1 - count,
{
    if i >= s.len() {
        SpecHeaderBlock::Incomplete
    } else if s[i] == CR {
        if i + 1 >= s.len() {
            SpecHeaderBlock::Incomplete
        } else if s[i + 1] == LF {
            SpecHeaderBlock::Done { headers: Seq::empty(), end: i + 2 }
        } else {
            SpecHeaderBlock::Malformed
        }
    } else if count >= MAX_HEADERS {
        SpecHeaderBlock::Malformed
    } else {
        match spec_header_line(s, i) {
            SpecHeaderLine::Incomplete => SpecHeaderBlock::Incomplete,
            SpecHeaderLine::Malformed => SpecHeaderBlock::Malformed,
            SpecHeaderLine::Done { name, value, next } => match spec_header_block(
                s,
                next,
                (count + 1) as nat,
            ) {
                SpecHeaderBlock::Incomplete => SpecHeaderBlock::Incomplete,
                SpecHeaderBlock::Malformed => SpecHeaderBlock::Malformed,
                SpecHeaderBlock::Done { headers, end } => SpecHeaderBlock::Done {
                    headers: seq![(name, value)] + headers,
                    end,
                },
            },
        }
    }
}

/// Classifies a whole buffer as a response head.
pub open spec fn spec_parse_head(s: Seq<u8>) -> SpecHead {
    match spec_status_line(s) {
        SpecStatusLine::Incomplete => SpecHead::Incomplete,
        SpecStatusLine::Malformed => SpecHead::Malformed,
        SpecStatusLine::Done { status, next } => match spec_header_block(s, next, 0) {
            SpecHeaderBlock::Incomplete => SpecHead::Incomplete,
            SpecHeaderBlock::Malformed => SpecHead::Malformed,
            SpecHeaderBlock::Done { headers, end } => SpecHead::Parsed { status, end, headers },
        },
    }
}

/// Outcome of scanning for one byte position: the executable twin of
/// [`SpecScan`].
pub enum Scan {
    Incomplete,
    Malformed,
    At(usize),
}

/// Whether the executable scan outcome means the same as the mathematical
/// one.
pub open spec fn scan_rel(r: Scan, g: SpecScan) -> bool {
    match (r, g) {
        (Scan::Incomplete, SpecScan::Incomplete) => true,
        (Scan::Malformed, SpecScan::Malformed) => true,
        (Scan::At(a), SpecScan::At(b)) => a as int == b,
        _ => false,
    }
}

/// The byte at position `j` of the fixed status-line prefix.
fn version_byte(j: usize) -> (r: u8)
    requires
        j < 7,
    ensures
        r == version_prefix()[j as int],
{
    if j == 0 {
        72
    } else if j == 1 {
        84
    } else if j == 2 {
        84
    } else if j == 3 {
        80
    } else if j == 4 {
        47
    } else if j == 5 {
        49
    } else {
        46
    }
}

/// Compares `s` from `i` against the status-line prefix from `j`.
fn scan_version(s: &[u8], i: usize, j: usize) -> (r: Scan)
    requires
        i <= s@.len(),
        j <= 7,
    ensures
        scan_rel(r, spec_prefix(s@, i as int, version_prefix(), j as int)),
        (r matches Scan::At(p) ==> i <= p <= s@.len()),
    decreases 7 - j,
{
    if j >= 7 {
        Scan::At(i)
    } else if i >= s.len() {
        Scan::Incomplete
    } else if s[i] != version_byte(j) {
        Scan::Malformed
    } else {
        scan_version(s, i + 1, j + 1)
    }
}

/// Scans from `i` for the CR of a CRLF, refusing a bare CR or LF.
fn scan_line_end(s: &[u8], i: usize) -> (r: Scan)
    requires
        i <= s@.len(),
    ensures
        scan_rel(r, spec_line_end(s@, i as int)),
        (r matches Scan::At(p) ==> i <= p && p + 1 < s@.len()),
    decreases s@.len() - i,
{
    if i >= s.len() {
        Scan::Incomplete
    } else if s[i] == CR {
        if i + 1 >= s.len() {
            Scan::Incomplete
        } else if s[i + 1] == LF {
            Scan::At(i)
        } else {
            Scan::Malformed
        }
    } else if s[i] == LF {
        Scan::Malformed
    } else {
        scan_line_end(s, i + 1)
    }
}

/// Scans from `i` for the colon ending a header name.
fn scan_name_end(s: &[u8], i: usize) -> (r: Scan)
    requires
        i <= s@.len(),
    ensures
        scan_rel(r, spec_name_end(s@, i as int)),
        (r matches Scan::At(p) ==> i <= p && p < s@.len()),
    decreases s@.len() - i,
{
    if i >= s.len() {
        Scan::Incomplete
    } else if s[i] == COLON {
        Scan::At(i)
    } else if s[i] == CR || s[i] == LF {
        Scan::Malformed
    } else {
        scan_name_end(s, i + 1)
    }
}

/// The first position at or after `i` whose byte is not a space or tab.
fn skip_ows(s: &[u8], i: usize) -> (r: usize)
    requires
        i <= s@.len(),
    ensures
        r as int == spec_skip_ows(s@, i as int),
        i <= r <= s@.len(),
    decreases s@.len() - i,
{
    if i < s.len() && (s[i] == SP || s[i] == HT) {
        skip_ows(s, i + 1)
    } else {
        i
    }
}

/// A fresh copy of `s[a..b]`.
pub fn copy_range(s: &[u8], a: usize, b: usize) -> (r: Vec<u8>)
    requires
        a <= b <= s@.len(),
    ensures
        r@ == s@.subrange(a as int, b as int),
{
    let mut out: Vec<u8> = Vec::new();
    let mut k = a;
    proof {
        assert(out@ =~= s@.subrange(a as int, a as int));
    }
    while k < b
        invariant
            a <= k <= b <= s@.len(),
            out@ == s@.subrange(a as int, k as int),
        decreases b - k,
    {
        out.push(s[k]);
        k = k + 1;
        proof {
            assert(s@.subrange(a as int, k as int) =~= s@.subrange(a as int, k as int - 1).push(
                s@[k as int - 1],
            ));
        }
    }
    out
}

/// Outcome of parsing the status line: the executable twin of
/// [`SpecStatusLine`].
pub enum StatusLine {
    Incomplete,
    Malformed,
    Done { status: u16, next: usize },
}

/// Whether the executable status-line outcome means the same as the
/// mathematical one.
pub open spec fn status_line_rel(r: StatusLine, g: SpecStatusLine) -> bool {
    match (r, g) {
        (StatusLine::Incomplete, SpecStatusLine::Incomplete) => true,
        (StatusLine::Malformed, SpecStatusLine::Malformed) => true,
        (
            StatusLine::Done { status: a, next: b },
            SpecStatusLine::Done { status: c, next: d },
        ) => a == c && b as int == d,
        _ => false,
    }
}

/// Parses the status line at the start of `s`.
fn status_line(s: &[u8]) -> (r: StatusLine)
    ensures
        status_line_rel(r, spec_status_line(s@)),
        (r matches StatusLine::Done { status, next } ==> next <= s@.len()),
{
    match scan_version(s, 0, 0) {
        Scan::Incomplete => StatusLine::Incomplete,
        Scan::Malformed => StatusLine::Malformed,
        Scan::At(_) => if s.len() <= 7 {
            StatusLine::Incomplete
        } else if s[7] != 48 && s[7] != 49 {
            StatusLine::Malformed
        } else if s.len() <= 8 {
            StatusLine::Incomplete
        } else if s[8] != SP {
            StatusLine::Malformed
        } else if s.len() <= 9 {
            StatusLine::Incomplete
        } else if !(48 <= s[9] && s[9] <= 57) {
            StatusLine::Malformed
        } else if s.len() <= 10 {
            StatusLine::Incomplete
        } else if !(48 <= s[10] && s[10] <= 57) {
            StatusLine::Malformed
        } else if s.len() <= 11 {
            StatusLine::Incomplete
        } else if !(48 <= s[11] && s[11] <= 57) {
            StatusLine::Malformed
        } else {
            let status: u16 = 100 * ((s[9] - 48) as u16) + 10 * ((s[10] - 48) as u16) + ((s[11]
                - 48) as u16);
            if s.len() <= 12 {
                StatusLine::Incomplete
            } else if s[12] == CR {
                if s.len() <= 13 {
                    StatusLine::Incomplete
                } else if s[13] == LF {
                    StatusLine::Done { status, next: 14 }
                } else {
                    StatusLine::Malformed
                }
            } else if s[12] == SP {
                match scan_line_end(s, 13) {
                    Scan::Incomplete => StatusLine::Incomplete,
                    Scan::Malformed => StatusLine::Malformed,
                    Scan::At(e) => StatusLine::Done { status, next: e + 2 },
                }
            } else {
                StatusLine::Malformed
            }
        },
    }
}

/// Outcome of parsing one header line: the executable twin of
/// [`SpecHeaderLine`].
pub enum HeaderLine {
    Incomplete,
    Malformed,
    Done { name: Vec<u8>, value: Vec<u8>, next: usize },
}

/// Whether the executable header-line outcome means the same as the
/// mathematical one.
pub open spec fn header_line_rel(r: HeaderLine, g: SpecHeaderLine) -> bool {
    match (r, g) {
        (HeaderLine::Incomplete, SpecHeaderLine::Incomplete) => true,
        (HeaderLine::Malformed, SpecHeaderLine::Malformed) => true,
        (
            HeaderLine::Done { name: n, value: v, next: x },
            SpecHeaderLine::Done { name: gn, value: gv, next: gx },
        ) => n@ == gn && v@ == gv && x as int == gx,
        _ => false,
    }
}

/// Parses one header line starting at `i`.
fn header_line(s: &[u8], i: usize) -> (r: HeaderLine)
    requires
        i <= s@.len(),
    ensures
        header_line_rel(r, spec_header_line(s@, i as int)),
        (r matches HeaderLine::Done { name, value, next } ==> i < next <= s@.len()),
{
    let n = s.len();
    match scan_name_end(s, i) {
        Scan::Incomplete => HeaderLine::Incomplete,
        Scan::Malformed => HeaderLine::Malformed,
        Scan::At(c) => if c == i {
            HeaderLine::Malformed
        } else {
            let v = skip_ows(s, c + 1);
            match scan_line_end(s, v) {
                Scan::Incomplete => HeaderLine::Incomplete,
                Scan::Malformed => HeaderLine::Malformed,
                Scan::At(e) => HeaderLine::Done {
                    name: copy_range(s, i, c),
                    value: copy_range(s, v, e),
                    next: e + 2,
                },
            }
        },
    }
}

/// The views of a list of copied header pairs.
pub open spec fn bytes_pairs_view(v: Seq<(Vec<u8>, Vec<u8>)>) -> Seq<(Seq<u8>, Seq<u8>)> {
    v.map(|j: int, p: (Vec<u8>, Vec<u8>)| (p.0@, p.1@))
}

/// Outcome of parsing the header block: the executable twin of
/// [`SpecHeaderBlock`].
pub enum HeaderBlock {
    Incomplete,
    Malformed,
    Done { headers: Vec<(Vec<u8>, Vec<u8>)>, end: usize },
}

/// Whether the executable header-block outcome means the same as the
/// mathematical one.
pub open spec fn header_block_rel(r: HeaderBlock, g: SpecHeaderBlock) -> bool {
    match (r, g) {
        (HeaderBlock::Incomplete, SpecHeaderBlock::Incomplete) => true,
        (HeaderBlock::Malformed, SpecHeaderBlock::Malformed) => true,
        (
            HeaderBlock::Done { headers: h, end: e },
            SpecHeaderBlock::Done { headers: gh, end: ge },
        ) => bytes_pairs_view(h@) == gh && e as int == ge,
        _ => false,
    }
}

/// Parses header lines from `i` until the blank line, `count` of them
/// already behind.
fn header_block(s: &[u8], i: usize, count: usize) -> (r: HeaderBlock)
    requires
        i <= s@.len(),
        count <= MAX_HEADERS,
    ensures
        header_block_rel(r, spec_header_block(s@, i as int, count as nat)),
        (r matches HeaderBlock::Done { headers, end } ==> end <= s@.len()),
    decreases MAX_HEADERS + 1 - count,
{
    if i >= s.len() {
        HeaderBlock::Incomplete
    } else if s[i] == CR {
        if i + 1 >= s.len() {
            HeaderBlock::Incomplete
        } else if s[i + 1] == LF {
            let headers: Vec<(Vec<u8>, Vec<u8>)> = Vec::new();
            proof {
                assert(bytes_pairs_view(headers@) =~= Seq::<(Seq<u8>, Seq<u8>)>::empty());
            }
            HeaderBlock::Done { headers, end: i + 2 }
        } else {
            HeaderBlock::Malformed
        }
    } else if count >= MAX_HEADERS {
        HeaderBlock::Malformed
    } else {
        match header_line(s, i) {
            HeaderLine::Incomplete => HeaderBlock::Incomplete,
            HeaderLine::Malformed => HeaderBlock::Malformed,
            HeaderLine::Done { name, value, next } => match header_block(s, next, count + 1) {
                HeaderBlock::Incomplete => HeaderBlock::Incomplete,
                HeaderBlock::Malformed => HeaderBlock::Malformed,
                HeaderBlock::Done { headers, end } => {
                    let ghost rest = bytes_pairs_view(headers@);
                    let ghost pair = (name@, value@);
                    let mut headers = headers;
                    headers.insert(0, (name, value));
                    proof {
                        assert(bytes_pairs_view(headers@) =~= seq![pair] + rest);
                    }
                    HeaderBlock::Done { headers, end }
                },
            },
        }
    }
}

/// A complete response head: its status, its length in bytes, and its
/// headers.
pub struct Head {
    pub status: u16,
    pub end: usize,
    pub headers: Vec<(Vec<u8>, Vec<u8>)>,
}

/// Classification of a buffer as a response head: the executable twin of
/// [`SpecHead`].
pub enum ParseOutcome {
    Incomplete,
    Malformed,
    Parsed(Head),
}

/// Whether the executable classification means the same as the mathematical
/// one.
pub open spec fn head_rel(r: ParseOutcome, g: SpecHead) -> bool {
    match (r, g) {
        (ParseOutcome::Incomplete, SpecHead::Incomplete) => true,
        (ParseOutcome::Malformed, SpecHead::Malformed) => true,
        (ParseOutcome::Parsed(h), SpecHead::Parsed { status, end, headers }) => h.status == status
            && h.end as int == end && bytes_pairs_view(h.headers@) == headers,
        _ => false,
    }
}

/// Classifies a whole buffer as a response head.
pub fn parse_head(s: &[u8]) -> (r: ParseOutcome)
    ensures
        head_rel(r, spec_parse_head(s@)),
{
    match status_line(s) {
        StatusLine::Incomplete => ParseOutcome::Incomplete,
        StatusLine::Malformed => ParseOutcome::Malformed,
        StatusLine::Done { status, next } => match header_block(s, next, 0) {
            HeaderBlock::Incomplete => ParseOutcome::Incomplete,
            HeaderBlock::Malformed => ParseOutcome::Malformed,
            HeaderBlock::Done { headers, end } => ParseOutcome::Parsed(
                Head { status, end, headers },
            ),
        },
    }
}


/// The lowercase image of an ASCII byte.
pub open spec fn lower_byte(b: u8) -> u8 {
    if 65 <= b <= 90 {
        (b + 32) as u8
    } else {
        b
    }
}

/// The bytes of the header name `location`.
pub open spec fn location_name() -> Seq<u8> {
    seq![108u8, 111u8, 99u8, 97u8, 116u8, 105u8, 111u8, 110u8]
}

/// Whether `n` is the name `Location`, compared without regard to ASCII
/// case.
pub open spec fn is_location_name(n: Seq<u8>) -> bool {
    n.len() == 8 && (forall|k: int| 0 <= k < 8 ==> lower_byte(n[k]) == location_name()[k])
}

/// The value of the first header named `Location` (in any ASCII case), if
/// one is there.
pub open spec fn spec_find_location(hs: Seq<(Seq<u8>, Seq<u8>)>) -> Option<Seq<u8>>
    decreases hs.len(),
{
    if hs.len() == 0 {
        Option::None
    } else if is_location_name(hs[0].0) {
        Option::Some(hs[0].1)
    } else {
        spec_find_location(hs.drop_first())
    }
}

/// The lowercase image of an ASCII byte.
fn lower_byte_ex(b: u8) -> (r: u8)
    ensures
        r == lower_byte(b),
{
    if 65 <= b && b <= 90 {
        b + 32
    } else {
        b
    }
}

/// The byte at position `k` of the name `location`.
fn location_byte(k: usize) -> (r: u8)
    requires
        k < 8,
    ensures
        r == location_name()[k as int],
{
    if k == 0 {
        108
    } else if k == 1 {
        111
    } else if k == 2 {
        99
    } else if k == 3 {
        97
    } else if k == 4 {
        116
    } else if k == 5 {
        105
    } else if k == 6 {
        111
    } else {
        110
    }
}

/// Whether `n` is the name `Location`, compared without regard to ASCII
/// case.
fn name_is_location(n: &Vec<u8>) -> (r: bool)
    ensures
        r == is_location_name(n@),
{
    if n.len() != 8 {
        return false;
    }
    let mut k: usize = 0;
    while k < 8
        invariant
            k <= 8,
            n@.len() == 8,
            forall|j: int| 0 <= j < k ==> lower_byte(n@[j]) == location_name()[j],
        decreases 8 - k,
    {
        if lower_byte_ex(n[k]) != location_byte(k) {
            return false;
        }
        k = k + 1;
    }
    true
}

/// The value of the first header named `Location` (in any ASCII case), if
/// one is there.
pub fn find_location(headers: &Vec<(Vec<u8>, Vec<u8>)>) -> (r: Option<&Vec<u8>>)
    ensures
        (r is Some) == (spec_find_location(bytes_pairs_view(headers@)) is Some),
        (r matches Option::Some(v) ==> spec_find_location(bytes_pairs_view(headers@))
            == Option::Some(v@)),
{
    let ghost full = bytes_pairs_view(headers@);
    let n = headers.len();
    let mut i: usize = 0;
    proof {
        assert(full.skip(0) =~= full);
    }
    while i < n
        invariant
            i <= n,
            n == headers@.len(),
            full == bytes_pairs_view(headers@),
            spec_find_location(full) == spec_find_location(full.skip(i as int)),
        decreases n - i,
    {
        if name_is_location(&headers[i].0) {
            proof {
                assert(full.skip(i as int)[0] == full[i as int]);
            }
            return Option::Some(&headers[i].1);
        }
        proof {
            assert(full.skip(i as int).drop_first() =~= full.skip(i as int + 1));
            assert(full.skip(i as int)[0] == full[i as int]);
        }
        i = i + 1;
    }
    proof {
        assert(full.skip(n as int) =~= Seq::<(Seq<u8>, Seq<u8>)>::empty());
    }
    Option::None
}

/// Whether the buffer ends in the blank-line terminator CRLF CRLF.
pub open spec fn ends_crlfcrlf(s: Seq<u8>) -> bool {
    s.len() >= 4 && s[s.len() - 4] == CR && s[s.len() - 3] == LF && s[s.len() - 2] == CR && s[s.len()
        - 1] == LF
}

/// Whether the buffer ends in the blank-line terminator CRLF CRLF.
pub fn buffer_ends_crlfcrlf(v: &Vec<u8>) -> (r: bool)
    ensures
        r == ends_crlfcrlf(v@),
{
    let n = v.len();
    if n < 4 {
        false
    } else {
        v[n - 4] == CR && v[n - 3] == LF && v[n - 2] == CR && v[n - 1] == LF
    }
}

} // verus!
