//! DAP wire framing: `Content-Length: <N>\r\n\r\n<body>`.
//!
//! The decoder finds the header terminator, reads the `Content-Length` value,
//! enforces the frame size limit and reports where the body lies; turning the
//! body into a message is left to the caller.

use crate::numtext::{
    decimal_chars, lemma_decimal, parse_usize, spec_all_digits, spec_decimal, spec_digits_value,
    spec_is_whitespace, spec_parse_usize, spec_trim, spec_trim_end, spec_trim_start, trim_bounds,
};
use crate::text::{chars_of, push_char, spec_starts_with};
use vstd::prelude::*;
use vstd::string::*;
use vstd::utf8::*;

verus! {

// ── Trusted std primitive ────────────────────────────────────────────────

/// Decodes bytes as UTF-8 text.
///
/// Trusted: calls `std::str::from_utf8`, whose documentation says it fails
/// exactly when the bytes are not valid UTF-8 and otherwise gives the text
/// they encode.
#[verifier::external_body]
fn utf8_text(bytes: &[u8]) -> (r: Option<String>)
    ensures
        r is Some <==> valid_utf8(bytes@),
        r matches Some(s) ==> s@ == decode_utf8(bytes@),
{
    match std::str::from_utf8(bytes) {
        Ok(s) => Some(s.to_string()),
        Err(_) => None,
    }
}

// ── Specification ────────────────────────────────────────────────────────

/// The frame size limit used by `DapCodec::default`: 4 MiB.
pub open spec fn spec_default_max_frame_size() -> usize {
    4194304
}

/// The longest header the decoder waits for before giving up.
pub open spec fn spec_max_header_len() -> int {
    4096
}

/// The bytes that end a frame header: `\r\n\r\n`.
pub open spec fn spec_header_terminator() -> Seq<u8> {
    seq![13u8, 10u8, 13u8, 10u8]
}

/// The header field name that carries the body length.
pub open spec fn spec_content_length_key() -> Seq<char> {
    seq!['C', 'o', 'n', 't', 'e', 'n', 't', '-', 'L', 'e', 'n', 'g', 't', 'h', ':']
}

/// The first index at or after `i` where `needle` occurs in `hay`.
pub open spec fn spec_find_from(hay: Seq<u8>, needle: Seq<u8>, i: int) -> Option<int>
    decreases hay.len() + 1 - i,
{
    if i < 0 || i + needle.len() > hay.len() {
        None
    } else if hay.subrange(i, i + needle.len()) == needle {
        Some(i)
    } else {
        spec_find_from(hay, needle, i + 1)
    }
}

/// The index of the first `\n` at or after `i`, or the length of `s`.
pub open spec fn spec_line_end_from(s: Seq<char>, i: int) -> int
    decreases s.len() - i,
{
    if i >= s.len() {
        s.len() as int
    } else if s[i] == '\n' {
        i
    } else {
        spec_line_end_from(s, i + 1)
    }
}

/// The `Content-Length` value carried by one header line, if it carries one.
pub open spec fn spec_line_content_length(line: Seq<char>) -> Option<usize> {
    let t = spec_trim(line);
    let key = spec_content_length_key();
    if spec_starts_with(t, key) {
        spec_parse_usize(spec_trim(t.subrange(key.len() as int, t.len() as int)))
    } else {
        None
    }
}

/// The first `Content-Length` value among the lines of `s` starting at `i`.
pub open spec fn spec_content_length_from(s: Seq<char>, i: int) -> Option<usize>
    decreases s.len() - i,
{
    if i < 0 || i > s.len() {
        None
    } else {
        let k = spec_line_end_from(s, i);
        proof {
            lemma_line_end_bounds(s, i);
        }
        match spec_line_content_length(s.subrange(i, k)) {
            Some(n) => Some(n),
            None => if k < s.len() {
                spec_content_length_from(s, k + 1)
            } else {
                None
            },
        }
    }
}

/// How far a buffer holds a frame.
#[derive(Debug, Clone, Copy, PartialEq, Eq, Structural)]
pub enum FrameStatus {
    /// The frame is not complete; `additional` more bytes are known to be needed
    /// (zero while the header itself is incomplete).
    Incomplete { additional: usize },
    /// The frame is complete; its body is `src[body_start..body_end]`.
    Complete { body_start: usize, body_end: usize },
}

/// Why a buffer cannot hold a valid frame.
#[derive(Debug, Clone, Copy, PartialEq, Eq, Structural)]
pub enum FrameError {
    /// More than 4 KiB arrived without a header terminator.
    HeaderTooLong,
    /// The header is not valid UTF-8.
    InvalidHeaderEncoding,
    /// No header line carries a `Content-Length` value.
    MissingContentLength,
    /// The announced body is larger than the codec allows.
    FrameTooLarge { content_length: usize, max: usize },
}

/// The outcome of decoding the front of `src` with frame limit `max`.
pub open spec fn spec_decode_frame(src: Seq<u8>, max: usize) -> Result<FrameStatus, FrameError> {
    match spec_find_from(src, spec_header_terminator(), 0) {
        None => if src.len() > spec_max_header_len() {
            Err(FrameError::HeaderTooLong)
        } else {
            Ok(FrameStatus::Incomplete { additional: 0 })
        },
        Some(h) => {
            let hb = src.subrange(0, h);
            if !valid_utf8(hb) {
                Err(FrameError::InvalidHeaderEncoding)
            } else {
                match spec_content_length_from(decode_utf8(hb), 0) {
                    None => Err(FrameError::MissingContentLength),
                    Some(n) => if n > max {
                        Err(FrameError::FrameTooLarge { content_length: n, max })
                    } else if src.len() < h + 4 + n {
                        Ok(FrameStatus::Incomplete { additional: (h + 4 + n - src.len()) as usize })
                    } else {
                        Ok(
                            FrameStatus::Complete {
                                body_start: (h + 4) as usize,
                                body_end: (h + 4 + n) as usize,
                            },
                        )
                    },
                }
            }
        },
    }
}

/// The header written in front of a body of `n` bytes.
pub open spec fn spec_frame_header(n: nat) -> Seq<char> {
    spec_content_length_key().push(' ') + spec_decimal(n) + seq!['\r', '\n', '\r', '\n']
}

/// The frame that carries `body`.
pub open spec fn spec_encode_frame(body: Seq<u8>) -> Seq<u8> {
    encode_utf8(spec_frame_header(body.len())) + body
}

// ── Lemmas on the line structure ─────────────────────────────────────────

/// The end of a line lies between its start and the end of the text.
pub proof fn lemma_line_end_bounds(s: Seq<char>, i: int)
    ensures
        0 <= i <= s.len() ==> i <= spec_line_end_from(s, i) <= s.len(),
        0 <= i <= s.len() ==> (spec_line_end_from(s, i) < s.len() ==> s[spec_line_end_from(s, i)] == '\n'),
        forall|j: int| i <= j < spec_line_end_from(s, i) ==> s[j] != '\n',
    decreases s.len() - i,
{
    if i < s.len() && s[i] != '\n' {
        lemma_line_end_bounds(s, i + 1);
    }
}

/// A line end found by scanning is the specified one.
proof fn lemma_line_end_scan(s: Seq<char>, i: int, k: int)
    requires
        0 <= i <= k <= s.len(),
        forall|j: int| i <= j < k ==> s[j] != '\n',
        k == s.len() || s[k] == '\n',
    ensures
        spec_line_end_from(s, i) == k,
    decreases k - i,
{
    if i < k {
        lemma_line_end_scan(s, i + 1, k);
    }
}

// ── Implementation ───────────────────────────────────────────────────────

/// A tokio-style codec for the DAP wire format.
pub struct DapCodec {
    /// Maximum allowed Content-Length value. Frames exceeding this are
    /// rejected to prevent memory exhaustion.
    max_frame_size: usize,
}

/// The first index where `needle` occurs in `haystack`.
fn find_subsequence(haystack: &[u8], needle: &[u8]) -> (r: Option<usize>)
    requires
        needle@.len() > 0,
    ensures
        r matches Some(i) ==> spec_find_from(haystack@, needle@, 0) == Some(i as int),
        r is None ==> spec_find_from(haystack@, needle@, 0) is None,
{
    if needle.len() > haystack.len() {
        return None;
    }
    let last = haystack.len() - needle.len();
    let mut i: usize = 0;
    while i <= last
        invariant
            0 < needle@.len() <= haystack@.len() <= usize::MAX,
            last == haystack@.len() - needle@.len(),
            i <= last + 1,
            spec_find_from(haystack@, needle@, 0) == spec_find_from(haystack@, needle@, i as int),
        decreases last + 1 - i,
    {
        let mut j: usize = 0;
        let mut same = true;
        while j < needle.len()
            invariant
                i <= last,
                0 < needle@.len() <= haystack@.len() <= usize::MAX,
                last == haystack@.len() - needle@.len(),
                j <= needle@.len(),
                same == (forall|t: int| 0 <= t < j ==> haystack@[i + t] == needle@[t]),
            decreases needle.len() - j,
        {
            if haystack[i + j] != needle[j] {
                same = false;
            }
            j = j + 1;
        }
        if same {
            assert(haystack@.subrange(i as int, i + needle@.len()) =~= needle@);
            return Some(i);
        }
        assert(haystack@.subrange(i as int, i + needle@.len()) != needle@) by {
            let t = choose|t: int| 0 <= t < needle@.len() && haystack@[i + t] != needle@[t];
            assert(haystack@.subrange(i as int, i + needle@.len())[t] != needle@[t]);
        }
        i = i + 1;
    }
    None
}

/// Whether `cs[lo..hi]` starts with the `Content-Length:` key.
fn starts_with_key(cs: &Vec<char>, lo: usize, hi: usize) -> (r: bool)
    requires
        lo <= hi <= cs@.len(),
    ensures
        r == spec_starts_with(cs@.subrange(lo as int, hi as int), spec_content_length_key()),
{
    let key = chars_of("Content-Length:");
    proof {
        reveal_strlit("Content-Length:");
    }
    assert(key@ =~= spec_content_length_key());
    if hi - lo < key.len() {
        return false;
    }
    let mut j: usize = 0;
    while j < key.len()
        invariant
            lo + key@.len() <= hi <= cs@.len(),
            key@ == spec_content_length_key(),
            j <= key@.len(),
            forall|t: int| 0 <= t < j ==> cs@[lo + t] == key@[t],
        decreases key.len() - j,
    {
        if cs[lo + j] != key[j] {
            assert(cs@.subrange(lo as int, hi as int).subrange(0, key@.len() as int)[j as int]
                != key@[j as int]);
            return false;
        }
        j = j + 1;
    }
    assert(cs@.subrange(lo as int, hi as int).subrange(0, key@.len() as int) =~= key@);
    true
}

/// The `Content-Length` value carried by the line `cs[lo..hi]`.
fn line_content_length(cs: &Vec<char>, lo: usize, hi: usize) -> (r: Option<usize>)
    requires
        lo <= hi <= cs@.len(),
    ensures
        r == spec_line_content_length(cs@.subrange(lo as int, hi as int)),
{
    let (a, b) = trim_bounds(cs, lo, hi);
    if !starts_with_key(cs, a, b) {
        return None;
    }
    let (c, d) = trim_bounds(cs, a + 15, b);
    assert(cs@.subrange(a as int, b as int).subrange(15, b - a) =~= cs@.subrange(a + 15, b as int));
    parse_usize(cs, c, d)
}

/// The first `Content-Length` value among the lines of `cs`.
fn header_content_length(cs: &Vec<char>) -> (r: Option<usize>)
    ensures
        r == spec_content_length_from(cs@, 0),
{
    let mut i: usize = 0;
    loop
        invariant
            i <= cs@.len(),
            spec_content_length_from(cs@, 0) == spec_content_length_from(cs@, i as int),
        decreases cs@.len() - i,
    {
        let mut k = i;
        while k < cs.len() && cs[k] != '\n'
            invariant
                i <= k <= cs@.len(),
                forall|j: int| i <= j < k ==> cs@[j] != '\n',
            decreases cs@.len() - k,
        {
            k = k + 1;
        }
        proof {
            lemma_line_end_scan(cs@, i as int, k as int);
        }
        let found = line_content_length(cs, i, k);
        if found.is_some() {
            return found;
        }
        if k == cs.len() {
            return None;
        }
        i = k + 1;
    }
}

impl DapCodec {
    /// The largest body the codec accepts.
    pub closed spec fn frame_limit(&self) -> usize {
        self.max_frame_size
    }

    /// Create a new DapCodec with the given maximum frame size in bytes.
    ///
    /// The default recommended value is 4 MiB for debug adapters.
    pub fn new(max_frame_size: usize) -> (r: Self)
        ensures
            r.frame_limit() == max_frame_size,
    {
        DapCodec { max_frame_size }
    }

    /// Returns the maximum frame size configured for this codec.
    pub fn max_frame_size(&self) -> (r: usize)
        ensures
            r == self.frame_limit(),
    {
        self.max_frame_size
    }

    /// Decode the frame at the front of `src`: report where its body lies,
    /// how many more bytes are needed, or why the buffer is malformed.
    pub fn decode_frame(&self, src: &[u8]) -> (r: Result<FrameStatus, FrameError>)
        ensures
            r == spec_decode_frame(src@, self.frame_limit()),
    {
        let src_len = src.len();
        let mut term: Vec<u8> = Vec::new();
        term.push(13u8);
        term.push(10u8);
        term.push(13u8);
        term.push(10u8);
        assert(term@ =~= spec_header_terminator());
        match find_subsequence(src, term.as_slice()) {
            None => {
                if src.len() > 4096 {
                    Err(FrameError::HeaderTooLong)
                } else {
                    Ok(FrameStatus::Incomplete { additional: 0 })
                }
            },
            Some(h) => {
                proof {
                    lemma_find_bounds(src@, spec_header_terminator(), 0);
                }
                let (hb, _) = src.split_at(h);
                match utf8_text(hb) {
                    None => Err(FrameError::InvalidHeaderEncoding),
                    Some(text) => {
                        let cs = chars_of(text.as_str());
                        match header_content_length(&cs) {
                            None => Err(FrameError::MissingContentLength),
                            Some(n) => {
                                if n > self.max_frame_size {
                                    Err(
                                        FrameError::FrameTooLarge {
                                            content_length: n,
                                            max: self.max_frame_size,
                                        },
                                    )
                                } else {
                                    let body_start = h + 4;
                                    let avail = src.len() - body_start;
                                    if n > avail {
                                        Ok(FrameStatus::Incomplete { additional: n - avail })
                                    } else {
                                        Ok(
                                            FrameStatus::Complete {
                                                body_start,
                                                body_end: body_start + n,
                                            },
                                        )
                                    }
                                }
                            },
                        }
                    },
                }
            },
        }
    }
}

/// Appends the bytes of `src` to `out`.
fn append_bytes(out: &mut Vec<u8>, src: &[u8])
    ensures
        final(out)@ == old(out)@ + src@,
{
    let ghost start = out@;
    let mut i: usize = 0;
    while i < src.len()
        invariant
            i <= src@.len(),
            out@ == start + src@.take(i as int),
        decreases src@.len() - i,
    {
        out.push(src[i]);
        assert(src@.take(i + 1) =~= src@.take(i as int).push(src@[i as int]));
        i = i + 1;
    }
    assert(src@.take(src@.len() as int) =~= src@);
}

/// Frame `body` for the wire: `Content-Length: <len>\r\n\r\n` followed by the body.
pub fn encode_frame(body: &[u8]) -> (r: Vec<u8>)
    ensures
        r@ == spec_encode_frame(body@),
{
    let mut header = String::from_str("Content-Length: ");
    proof {
        reveal_strlit("Content-Length: ");
    }
    assert(header@ =~= spec_content_length_key().push(' '));
    let digits = decimal_chars(body.len() as u64);
    let ghost head = header@;
    let mut i: usize = 0;
    while i < digits.len()
        invariant
            i <= digits@.len(),
            header@ == head + digits@.take(i as int),
        decreases digits@.len() - i,
    {
        push_char(&mut header, digits[i]);
        assert(digits@.take(i + 1) =~= digits@.take(i as int).push(digits@[i as int]));
        i = i + 1;
    }
    assert(digits@.take(digits@.len() as int) =~= digits@);
    header.append("\r\n\r\n");
    proof {
        reveal_strlit("\r\n\r\n");
    }
    assert(header@ =~= spec_frame_header(body@.len()));
    let hbytes = header.as_str().as_bytes();
    let mut out: Vec<u8> = Vec::new();
    append_bytes(&mut out, hbytes);
    append_bytes(&mut out, body);
    assert(out@ =~= spec_encode_frame(body@));
    out
}

impl Default for DapCodec {
    fn default() -> (r: Self)
        ensures
            r.frame_limit() == spec_default_max_frame_size(),
    {
        DapCodec::new(4 * 1024 * 1024)
    }
}

/// A match found from `i` on lies inside the haystack and matches there.
pub proof fn lemma_find_bounds(hay: Seq<u8>, needle: Seq<u8>, i: int)
    ensures
        spec_find_from(hay, needle, i) matches Some(h) ==> i <= h && 0 <= h && h + needle.len()
            <= hay.len() && hay.subrange(h, h + needle.len()) == needle,
    decreases hay.len() + 1 - i,
{
    if !(i < 0 || i + needle.len() > hay.len()) && hay.subrange(i, i + needle.len()) != needle {
        lemma_find_bounds(hay, needle, i + 1);
    }
}

// ── The framing law ──────────────────────────────────────────────────────

/// A needle whose first byte occurs nowhere before `p` is first found at `p`.
proof fn lemma_find_first(hay: Seq<u8>, needle: Seq<u8>, i: int, p: int)
    requires
        0 <= i <= p,
        needle.len() > 0,
        p + needle.len() <= hay.len(),
        hay.subrange(p, p + needle.len()) == needle,
        forall|j: int| i <= j < p ==> hay[j] != needle[0],
    ensures
        spec_find_from(hay, needle, i) == Some(p),
    decreases p - i,
{
    if i < p {
        assert(hay.subrange(i, i + needle.len())[0] != needle[0]);
        lemma_find_first(hay, needle, i + 1, p);
    }
}

/// The header of a frame carries exactly the body length.
proof fn lemma_header_content_length(n: nat)
    requires
        n <= usize::MAX,
    ensures
        spec_content_length_from(spec_content_length_key().push(' ') + spec_decimal(n), 0)
            == Some(n as usize),
{
    let key = spec_content_length_key();
    let d = spec_decimal(n);
    let h0 = key.push(' ') + d;
    lemma_decimal(n);
    assert(forall|j: int| 0 <= j < h0.len() ==> h0[j] != '\n') by {
        assert forall|j: int| 0 <= j < h0.len() implies h0[j] != '\n' by {
            if j >= 16 {
                assert(h0[j] == d[j - 16]);
            }
        }
    }
    lemma_line_end_scan(h0, 0, h0.len() as int);
    assert(h0.subrange(0, h0.len() as int) =~= h0);
    // The header line is already trimmed.
    assert(!spec_is_whitespace(h0[0]));
    assert(spec_trim_start(h0) == h0);
    assert(h0.last() == d.last());
    assert(!spec_is_whitespace(h0.last()));
    assert(spec_trim_end(h0) == h0);
    assert(spec_trim(h0) == h0);
    assert(h0.subrange(0, key.len() as int) =~= key);
    // The value after the key is a space followed by the digits.
    let v = h0.subrange(key.len() as int, h0.len() as int);
    assert(v.drop_first() =~= d);
    assert(spec_is_whitespace(v[0]));
    assert(!spec_is_whitespace(d[0]));
    assert(spec_trim_start(d) == d);
    assert(spec_trim_start(v) == d);
    assert(!spec_is_whitespace(d.last()));
    assert(spec_trim_end(d) == d);
    assert(spec_trim(v) == d);
    assert(d[0] != '+');
    assert(spec_parse_usize(d) == Some(n as usize));
    assert(spec_line_content_length(h0) == Some(n as usize));
}

/// Ten to the power `k`.
spec fn spec_pow10(k: nat) -> nat
    decreases k,
{
    if k == 0 {
        1
    } else {
        10 * spec_pow10((k - 1) as nat)
    }
}

/// A number below `10^k` has at most `k` decimal digits.
proof fn lemma_decimal_len(n: nat, k: nat)
    requires
        k >= 1,
        n < spec_pow10(k),
    ensures
        spec_decimal(n).len() <= k,
    decreases k,
{
    if n >= 10 {
        if k == 1 {
            assert(spec_pow10(1) == 10 * spec_pow10(0));
        } else {
            assert(spec_pow10(k) == 10 * spec_pow10((k - 1) as nat));
            assert(n / 10 < spec_pow10((k - 1) as nat));
            lemma_decimal_len(n / 10, (k - 1) as nat);
        }
    }
}

/// The layout of the frame that carries `body`: its header is short and
/// ASCII, its only `\r` bytes before the body are those of the terminator,
/// and the header text announces exactly the body length.
proof fn lemma_frame_layout(body: Seq<u8>)
    requires
        body.len() <= usize::MAX,
    ensures
        ({
            let f = spec_encode_frame(body);
            let hl = encode_utf8(spec_frame_header(body.len())).len() as int;
            &&& 4 <= hl <= 40
            &&& f.len() == hl + body.len()
            &&& forall|j: int| 0 <= j < hl - 4 ==> f[j] != spec_header_terminator()[0]
            &&& f.subrange(hl - 4, hl) == spec_header_terminator()
            &&& valid_utf8(f.subrange(0, hl - 4))
            &&& spec_content_length_from(decode_utf8(f.subrange(0, hl - 4)), 0) == Some(
                body.len() as usize,
            )
            &&& f.subrange(hl, f.len() as int) == body
        }),
{
    let n = body.len();
    let key = spec_content_length_key();
    let d = spec_decimal(n);
    let h0 = key.push(' ') + d;
    let h = spec_frame_header(n);
    let e = encode_utf8(h);
    let src = spec_encode_frame(body);
    let p = h0.len() as int;
    lemma_decimal(n);
    assert(spec_pow10(20) == 100000000000000000000nat) by {
        reveal_with_fuel(spec_pow10, 21);
    }
    lemma_decimal_len(n, 20);
    assert(h =~= h0 + seq!['\r', '\n', '\r', '\n']);
    // The header is ASCII, so its encoding is one byte per character.
    assert(is_ascii_chars(h)) by {
        assert forall|j: int| 0 <= j < h.len() implies '\0' <= #[trigger] h[j] <= '\u{7f}' by {
            if 16 <= j < p {
                assert(h[j] == d[j - 16]);
            }
        }
    }
    is_ascii_chars_encode_utf8(h);
    assert(is_ascii_chars(h0)) by {
        assert forall|j: int| 0 <= j < h0.len() implies '\0' <= #[trigger] h0[j] <= '\u{7f}' by {
            assert(h0[j] == h[j]);
        }
    }
    is_ascii_chars_encode_utf8(h0);
    assert(e.len() == p + 4);
    assert(forall|j: int| 0 <= j < e.len() ==> src[j] == e[j]);
    // The terminator ends the header.
    let t = spec_header_terminator();
    assert(src.subrange(p, p + 4) =~= t) by {
        assert(src[p] == e[p]);
        assert(src[p + 1] == e[p + 1]);
        assert(src[p + 2] == e[p + 2]);
        assert(src[p + 3] == e[p + 3]);
        assert(e[p] == h[p] as u8);
        assert(e[p + 1] == h[p + 1] as u8);
        assert(e[p + 2] == h[p + 2] as u8);
        assert(e[p + 3] == h[p + 3] as u8);
    }
    assert forall|j: int| 0 <= j < p implies src[j] != t[0] by {
        assert(src[j] == e[j]);
        assert(e[j] == h[j] as u8);
        assert(h[j] == h0[j]);
        if j >= 16 {
            assert(h0[j] == d[j - 16]);
        }
    }
    // The header text decodes back to the header line.
    let hb = src.subrange(0, p);
    assert(hb =~= encode_utf8(h0)) by {
        assert forall|j: int| 0 <= j < p implies hb[j] == encode_utf8(h0)[j] by {
            assert(hb[j] == e[j]);
            assert(e[j] == h[j] as u8);
            assert(h[j] == h0[j]);
        }
    }
    encode_utf8_valid_utf8(h0);
    encode_utf8_decode_utf8(h0);
    lemma_header_content_length(n);
    assert(src.subrange(p + 4, src.len() as int) =~= body);
}

/// No match is found from `i` on when no candidate position holds the
/// needle's first byte.
proof fn lemma_find_none(hay: Seq<u8>, needle: Seq<u8>, i: int)
    requires
        0 <= i,
        needle.len() > 0,
        forall|j: int| i <= j && j + needle.len() <= hay.len() ==> hay[j] != needle[0],
    ensures
        spec_find_from(hay, needle, i) is None,
    decreases hay.len() + 1 - i,
{
    if i + needle.len() <= hay.len() {
        assert(hay.subrange(i, i + needle.len())[0] != needle[0]);
        lemma_find_none(hay, needle, i + 1);
    }
}

/// Decoding what `encode_frame` wrote for `body`, followed by any further
/// bytes, finds a complete frame whose body is exactly `body`, and leaves the
/// further bytes after it.
pub proof fn lemma_frame_roundtrip(body: Seq<u8>, rest: Seq<u8>, max: usize)
    requires
        body.len() <= max,
        spec_encode_frame(body).len() + rest.len() <= usize::MAX,
    ensures
        ({
            let src = spec_encode_frame(body) + rest;
            let hl = encode_utf8(spec_frame_header(body.len())).len() as int;
            &&& spec_decode_frame(src, max) == Ok::<FrameStatus, FrameError>(
                FrameStatus::Complete {
                    body_start: hl as usize,
                    body_end: (hl + body.len()) as usize,
                },
            )
            &&& src.subrange(hl as int, hl + body.len()) == body
            &&& src.subrange(hl + body.len(), src.len() as int) == rest
        }),
{
    let f = spec_encode_frame(body);
    let src = f + rest;
    let hl = encode_utf8(spec_frame_header(body.len())).len() as int;
    let p = hl - 4;
    lemma_frame_layout(body);
    let t = spec_header_terminator();
    assert(src.subrange(p, p + 4) =~= f.subrange(p, hl));
    assert forall|j: int| 0 <= j < p implies src[j] != t[0] by {
        assert(src[j] == f[j]);
    }
    lemma_find_first(src, t, 0, p);
    assert(src.subrange(0, p) =~= f.subrange(0, p));
    assert(src.subrange(hl, hl + body.len()) =~= f.subrange(hl, f.len() as int));
    assert(src.subrange(hl + body.len(), src.len() as int) =~= rest);
}

/// Every proper prefix of a frame whose body fits the limit decodes as
/// incomplete, never as an error: before the header is in the decoder waits
/// without a count, after it for exactly the bytes still missing.
pub proof fn lemma_frame_prefix_incomplete(body: Seq<u8>, k: int, max: usize)
    requires
        body.len() <= max,
        0 <= k < spec_encode_frame(body).len(),
    ensures
        ({
            let f = spec_encode_frame(body);
            let hl = encode_utf8(spec_frame_header(body.len())).len() as int;
            spec_decode_frame(f.take(k), max) == Ok::<FrameStatus, FrameError>(
                FrameStatus::Incomplete {
                    additional: if k < hl {
                        0
                    } else {
                        (f.len() - k) as usize
                    },
                },
            )
        }),
{
    let f = spec_encode_frame(body);
    let src = f.take(k);
    let hl = encode_utf8(spec_frame_header(body.len())).len() as int;
    let p = hl - 4;
    let t = spec_header_terminator();
    lemma_frame_layout(body);
    if k < hl {
        assert forall|j: int| 0 <= j && j + t.len() <= src.len() implies src[j] != t[0] by {
            assert(src[j] == f[j]);
        }
        lemma_find_none(src, t, 0);
    } else {
        assert(src.subrange(p, p + 4) =~= f.subrange(p, hl));
        assert forall|j: int| 0 <= j < p implies src[j] != t[0] by {
            assert(src[j] == f[j]);
        }
        lemma_find_first(src, t, 0, p);
        assert(src.subrange(0, p) =~= f.subrange(0, p));
    }
}

/// Two byte strings that agree on their first `m` bytes find the same
/// first match of `needle` when it lies within those bytes; and a string of
/// exactly those `m` bytes finds none when the first match in the other lies
/// beyond them, or when the other has none.
proof fn lemma_find_agree(a: Seq<u8>, b: Seq<u8>, needle: Seq<u8>, i: int, m: int)
    requires
        needle.len() > 0,
        0 <= i,
        m <= a.len(),
        m <= b.len(),
        forall|j: int| 0 <= j < m ==> a[j] == b[j],
    ensures
        match spec_find_from(a, needle, i) {
            Some(h) => {
                &&& h + needle.len() <= m ==> spec_find_from(b, needle, i) == Some(h)
                &&& h + needle.len() > m && b.len() == m ==> spec_find_from(b, needle, i) is None
            },
            None => b.len() == m ==> spec_find_from(b, needle, i) is None,
        },
    decreases a.len() + 1 - i,
{
    let tl = needle.len() as int;
    lemma_find_bounds(a, needle, i);
    if i + tl <= m {
        assert(a.subrange(i, i + tl) =~= b.subrange(i, i + tl));
        if a.subrange(i, i + tl) != needle {
            lemma_find_agree(a, b, needle, i + 1, m);
        }
    }
}

/// What every proper prefix of a valid frame decodes as: past the end of
/// the header, incomplete by exactly the bytes still missing; before it,
/// incomplete without a count while the prefix is within the decoder's
/// header limit, and refused as a header too long beyond it. So a frame
/// whose header ends within the limit has every proper prefix incomplete.
pub proof fn lemma_valid_frame_prefix_incomplete(f: Seq<u8>, max: usize, k: int)
    requires
        spec_decode_frame(f, max) matches Ok(FrameStatus::Complete { body_end, .. }) && body_end
            == f.len(),
        0 <= k < f.len(),
    ensures
        spec_decode_frame(f, max) matches Ok(FrameStatus::Complete { body_start, body_end })
            && spec_decode_frame(f.take(k), max) == if k >= body_start {
            Ok::<FrameStatus, FrameError>(
                FrameStatus::Incomplete { additional: (body_end - k) as usize },
            )
        } else if k > spec_max_header_len() {
            Err::<FrameStatus, FrameError>(FrameError::HeaderTooLong)
        } else {
            Ok::<FrameStatus, FrameError>(FrameStatus::Incomplete { additional: 0 })
        },
{
    let t = spec_header_terminator();
    let p = f.take(k);
    lemma_find_bounds(f, t, 0);
    let h = spec_find_from(f, t, 0)->0;
    lemma_find_agree(f, p, t, 0, k);
    if k >= h + 4 {
        assert(p.subrange(0, h) =~= f.subrange(0, h));
    }
}

/// A valid frame followed by any further bytes decodes as the same
/// complete frame: the further bytes do not change where its body lies.
pub proof fn lemma_valid_frame_extended(f: Seq<u8>, rest: Seq<u8>, max: usize)
    requires
        spec_decode_frame(f, max) matches Ok(FrameStatus::Complete { body_end, .. }) && body_end
            == f.len(),
    ensures
        spec_decode_frame(f + rest, max) == spec_decode_frame(f, max),
{
    let t = spec_header_terminator();
    let g = f + rest;
    lemma_find_bounds(f, t, 0);
    let h = spec_find_from(f, t, 0)->0;
    lemma_find_agree(f, g, t, 0, f.len() as int);
    assert(g.subrange(0, h) =~= f.subrange(0, h));
}

} // verus!
