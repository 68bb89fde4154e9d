//! Minimal HTTP/1.1 request parsing and response framing.
//!
//! Reading from and writing to a socket is left to the caller: the functions
//! here take and return plain bytes and strings.
use vstd::prelude::*;
use vstd::utf8::*;
use crate::server::base64;
use crate::server::syntax::{
    ci_eq, copy_range, decimal_digits, eq_ignore_ascii_case_at, find_char, index_of_char,
    lemma_index_of_char, lines, parse_decimal, parse_usize, push_all, push_decimal, seqs_of,
    split_lines, split_whitespace, trim, trim_chars, ws_tokens,
};
use crate::text::{chars_of, string_of, utf8_chars};

verus! {

broadcast use vstd::utf8::char_is_scalar;

/// Maximum header size accepted (4 KiB).
pub const MAX_HEADER_BYTES: usize = 4096;

/// A parsed HTTP/1.1 request.
pub struct HttpRequest {
    pub method: String,
    pub path: String,
    /// Header fields in the order they arrived, as `(name, value)` with the
    /// value trimmed of surrounding whitespace.
    pub headers: Vec<(String, String)>,
    pub body: Vec<u8>,
}

/// Errors that can occur during HTTP I/O.
#[derive(Debug, Clone, Copy, PartialEq, Eq, Structural)]
pub enum HttpError {
    ReadFailed,
    WriteFailed,
    ConnectionClosed,
    HeadersTooLarge,
    InvalidUtf8,
    MalformedRequest,
    SerializeFailed,
    DeserializeFailed,
}

/// The request line and header fields of a request, before its body is read.
pub struct RequestHead {
    pub method: String,
    pub path: String,
    pub headers: Vec<(String, String)>,
    /// Value of the last `Content-Length` header; `0` when there is none or it
    /// does not parse.
    pub content_length: usize,
}

/// Header fields as pairs of character sequences.
pub open spec fn header_views(h: Seq<(String, String)>) -> Seq<(Seq<char>, Seq<char>)> {
    h.map_values(|p: (String, String)| (p.0@, p.1@))
}

// ---------------------------------------------------------------------------
// Reading the head
// ---------------------------------------------------------------------------

/// Where reading the head of a request stands after one more byte.
#[derive(Debug, Clone, Copy, PartialEq, Eq, Structural)]
pub enum HeadScan {
    /// The blank line that ends the head has not arrived yet.
    Incomplete,
    /// The buffer ends with `\r\n\r\n`.
    Complete,
    /// More than [`MAX_HEADER_BYTES`] bytes arrived without the blank line.
    TooLarge,
}

pub open spec fn ends_with_blank_line(b: Seq<u8>) -> bool {
    b.len() >= 4 && b.subrange(b.len() - 4, b.len() as int) == seq![13u8, 10u8, 13u8, 10u8]
}

pub open spec fn spec_head_scan(b: Seq<u8>) -> HeadScan {
    if ends_with_blank_line(b) {
        HeadScan::Complete
    } else if b.len() > MAX_HEADER_BYTES {
        HeadScan::TooLarge
    } else {
        HeadScan::Incomplete
    }
}

/// Appends one received byte to the head buffer and reports whether the head
/// is complete, still incomplete, or over the size limit.
pub fn scan_head_byte(buf: &mut Vec<u8>, byte: u8) -> (r: HeadScan)
    ensures
        final(buf)@ == old(buf)@.push(byte),
        r == spec_head_scan(final(buf)@),
{
    buf.push(byte);
    let n = buf.len();
    if n >= 4 && buf[n - 4] == 13 && buf[n - 3] == 10 && buf[n - 2] == 13 && buf[n - 1] == 10 {
        assert(buf@.subrange(n - 4, n as int) =~= seq![13u8, 10u8, 13u8, 10u8]);
        HeadScan::Complete
    } else if n > MAX_HEADER_BYTES {
        proof {
            if n >= 4 {
                let t = buf@.subrange(n - 4, n as int);
                if t == seq![13u8, 10u8, 13u8, 10u8] {
                    assert(t[0] == buf@[n - 4] && t[1] == buf@[n - 3] && t[2] == buf@[n - 2] && t[3] == buf@[n - 1]);
                }
            }
        }
        HeadScan::TooLarge
    } else {
        proof {
            if n >= 4 {
                let t = buf@.subrange(n - 4, n as int);
                if t == seq![13u8, 10u8, 13u8, 10u8] {
                    assert(t[0] == buf@[n - 4] && t[1] == buf@[n - 3] && t[2] == buf@[n - 2] && t[3] == buf@[n - 1]);
                }
            }
        }
        HeadScan::Incomplete
    }
}

// ---------------------------------------------------------------------------
// Parsing the head
// ---------------------------------------------------------------------------

/// `true` for a line that the server takes as a `Content-Length` header: its
/// first 15 characters are `content-length:` in any ASCII case and the whole
/// line is longer than 16 bytes.
pub open spec fn is_content_length_line(l: Seq<char>) -> bool {
    &&& l.len() >= 15
    &&& ci_eq(l.take(15), "content-length:"@)
    &&& encode_utf8(l).len() > 16
}

/// The value that a `Content-Length` line gives: the trimmed remainder parsed
/// as a `usize`, or `0` when it does not parse.
pub open spec fn content_length_value(l: Seq<char>) -> usize {
    match parse_usize(trim(l.skip(15))) {
        Some(v) => v,
        None => 0,
    }
}

/// The value of the last `Content-Length` line among header lines, or `0`.
pub open spec fn content_length_of(ls: Seq<Seq<char>>) -> usize
    decreases ls.len(),
{
    if ls.len() == 0 {
        0
    } else if is_content_length_line(ls.last()) {
        content_length_value(ls.last())
    } else {
        content_length_of(ls.drop_last())
    }
}

/// A header line `name: value`, split at its first colon.
pub open spec fn header_of_line(l: Seq<char>) -> Option<(Seq<char>, Seq<char>)> {
    match index_of_char(l, ':') {
        Some(k) => Some((l.take(k), trim(l.skip(k + 1)))),
        None => None,
    }
}

/// The header fields among header lines; lines without a colon carry none.
pub open spec fn headers_of(ls: Seq<Seq<char>>) -> Seq<(Seq<char>, Seq<char>)>
    decreases ls.len(),
{
    if ls.len() == 0 {
        Seq::empty()
    } else {
        match header_of_line(ls.last()) {
            Some(h) => headers_of(ls.drop_last()).push(h),
            None => headers_of(ls.drop_last()),
        }
    }
}

/// The head of a request: the first line holds at least two
/// whitespace-separated tokens, method and path; every later line may be a
/// header field.
pub open spec fn spec_parse_head(bytes: Seq<u8>) -> Result<
    (Seq<char>, Seq<char>, Seq<(Seq<char>, Seq<char>)>, usize),
    HttpError,
> {
    if !valid_utf8(bytes) {
        Err(HttpError::InvalidUtf8)
    } else {
        let ls = lines(decode_utf8(bytes));
        if ls.len() == 0 || ws_tokens(ls[0]).len() < 2 {
            Err(HttpError::MalformedRequest)
        } else {
            let rest = ls.skip(1);
            Ok((ws_tokens(ls[0])[0], ws_tokens(ls[0])[1], headers_of(rest), content_length_of(rest)))
        }
    }
}

proof fn lemma_encode_len_suffix(s: Seq<char>, i: int)
    requires
        0 <= i <= s.len(),
    ensures
        encode_utf8(s).len() >= encode_utf8(s.skip(i)).len(),
    decreases i,
{
    if i > 0 {
        lemma_encode_len_suffix(s.drop_first(), i - 1);
        assert(s.drop_first().skip(i - 1) =~= s.skip(i));
    } else {
        assert(s.skip(0) =~= s);
    }
}

fn utf8_width(c: char) -> (w: usize)
    ensures
        w == encode_scalar(c as u32).len(),
{
    let u = c as u32;
    if u <= 0x7F {
        1
    } else if u <= 0x7FF {
        2
    } else if u <= 0xFFFF {
        3
    } else {
        4
    }
}

/// Whether the UTF-8 encoding of `s` is longer than `bound` bytes.
fn encoded_len_exceeds(s: &[char], bound: usize) -> (r: bool)
    requires
        bound <= 1024,
    ensures
        r == (encode_utf8(s@).len() > bound),
{
    let mut total: usize = 0;
    let mut i: usize = s.len();
    assert(s@.skip(s@.len() as int) =~= Seq::<char>::empty());
    while i > 0
        invariant
            i <= s@.len(),
            bound <= 1024,
            total <= bound,
            total == encode_utf8(s@.skip(i as int)).len(),
        decreases i,
    {
        i = i - 1;
        let ghost tail = s@.skip(i as int);
        assert(tail.drop_first() =~= s@.skip(i + 1));
        assert(tail[0] == s@[i as int]);
        total = total + utf8_width(s[i]);
        if total > bound {
            proof {
                lemma_encode_len_suffix(s@, i as int);
            }
            return true;
        }
    }
    assert(s@.skip(0) =~= s@);
    false
}

fn header_line(l: &[char]) -> (r: Option<(String, String)>)
    ensures
        r matches Some(p) ==> header_of_line(l@) == Some((p.0@, p.1@)),
        r is None ==> header_of_line(l@) is None,
{
    match find_char(l, ':') {
        Some(k) => {
            proof {
                lemma_index_of_char(l@, ':');
            }
            let n = l.len();
            assert(k < n);
            let name = copy_range(l, 0, k);
            let rest = copy_range(l, k + 1, n);
            let value = trim_chars(rest.as_slice());
            assert(rest@ =~= l@.skip(k + 1));
            assert(name@ =~= l@.take(k as int));
            Some((string_of(name.as_slice()), string_of(value.as_slice())))
        },
        None => None,
    }
}

fn content_length_line(l: &[char], label: &[char]) -> (r: Option<usize>)
    requires
        label@ == "content-length:"@,
    ensures
        r matches Some(v) ==> is_content_length_line(l@) && v == content_length_value(l@),
        r is None ==> !is_content_length_line(l@),
{
    proof {
        reveal_strlit("content-length:");
    }
    if l.len() < 15 {
        return None;
    }
    if !eq_ignore_ascii_case_at(l, 0, label) {
        assert(l@.subrange(0, 15) =~= l@.take(15));
        return None;
    }
    assert(l@.subrange(0, 15) =~= l@.take(15));
    if !encoded_len_exceeds(l, 16) {
        return None;
    }
    let rest = copy_range(l, 15, l.len());
    assert(rest@ =~= l@.skip(15));
    let value = trim_chars(rest.as_slice());
    match parse_decimal(value.as_slice()) {
        Some(v) => Some(v),
        None => Some(0),
    }
}

/// Whether the first `n` bytes of the UTF-8 form of `l` end where a
/// character ends.
pub open spec fn ends_on_char_boundary(l: Seq<char>, n: int) -> bool
    decreases l.len(),
{
    if n <= 0 {
        n == 0
    } else if l.len() == 0 {
        false
    } else {
        ends_on_char_boundary(l.drop_first(), n - encode_scalar(l[0] as u32).len())
    }
}

/// Whether a header line can be tested for `Content-Length`: the test looks
/// at the first 15 bytes of a line longer than 16 bytes, so these must form
/// whole characters.
pub open spec fn line_is_examinable(l: Seq<char>) -> bool {
    encode_utf8(l).len() > 16 ==> ends_on_char_boundary(l, 15)
}

/// Whether every header line of a request head can be tested for
/// `Content-Length`.  Heads that are not UTF-8 are refused before any line is
/// tested.
pub open spec fn spec_head_is_examinable(head: Seq<u8>) -> bool {
    valid_utf8(head) ==> forall|i: int|
        1 <= i < lines(decode_utf8(head)).len() ==> line_is_examinable(
            #[trigger] lines(decode_utf8(head))[i],
        )
}

fn ends_on_byte_15(l: &[char]) -> (r: bool)
    ensures
        r == ends_on_char_boundary(l@, 15),
{
    let mut i: usize = 0;
    let mut left: usize = 15;
    assert(l@.skip(0) =~= l@);
    while left > 0 && i < l.len()
        invariant
            i <= l@.len(),
            left <= 15,
            ends_on_char_boundary(l@, 15) == ends_on_char_boundary(l@.skip(i as int), left as int),
        decreases l@.len() - i,
    {
        let w = utf8_width(l[i]);
        assert(l@.skip(i as int)[0] == l@[i as int]);
        assert(l@.skip(i as int).drop_first() =~= l@.skip(i + 1));
        if w > left {
            assert(!ends_on_char_boundary(l@.skip(i + 1), left - w));
            return false;
        }
        left = left - w;
        i = i + 1;
    }
    left == 0
}

/// Whether every header line of the request head `head` can be tested for
/// `Content-Length`; [`parse_request_head`] takes only such heads.
pub fn head_is_examinable(head: &[u8]) -> (r: bool)
    ensures
        r == spec_head_is_examinable(head@),
{
    let text = match utf8_chars(head) {
        Some(t) => t,
        None => {
            return true;
        },
    };
    let ls = split_lines(text.as_slice());
    let ghost all = seqs_of(ls@);
    let mut i: usize = 1;
    while i < ls.len()
        invariant
            1 <= i,
            all == seqs_of(ls@),
            valid_utf8(head@),
            all == lines(decode_utf8(head@)),
            forall|j: int| 1 <= j < i && j < all.len() ==> line_is_examinable(#[trigger] all[j]),
        decreases ls@.len() - i,
    {
        let line = ls[i].as_slice();
        assert(all[i as int] == line@);
        if encoded_len_exceeds(line, 16) && !ends_on_byte_15(line) {
            assert(!line_is_examinable(lines(decode_utf8(head@))[i as int]));
            return false;
        }
        i = i + 1;
    }
    true
}

/// Parses the head of a request (everything up to and including the blank
/// line): the method and path from the request line, the header fields, and
/// the value of the last `Content-Length` header.
pub fn parse_request_head(head: &[u8]) -> (r: Result<RequestHead, HttpError>)
    requires
        spec_head_is_examinable(head@),
    ensures
        r matches Ok(h) ==> spec_parse_head(head@) == Ok::<_, HttpError>(
            (h.method@, h.path@, header_views(h.headers@), h.content_length),
        ),
        r matches Err(e) ==> spec_parse_head(head@) == Err::<
            (Seq<char>, Seq<char>, Seq<(Seq<char>, Seq<char>)>, usize),
            HttpError,
        >(e),
{
    let text = match utf8_chars(head) {
        Some(t) => t,
        None => {
            return Err(HttpError::InvalidUtf8);
        },
    };
    let ls = split_lines(text.as_slice());
    if ls.len() == 0 {
        return Err(HttpError::MalformedRequest);
    }
    let toks = split_whitespace(ls[0].as_slice());
    if toks.len() < 2 {
        return Err(HttpError::MalformedRequest);
    }
    let ghost all = seqs_of(ls@);
    assert(all[0] == ls@[0]@);
    assert(seqs_of(toks@)[0] == toks@[0]@ && seqs_of(toks@)[1] == toks@[1]@);
    let method = string_of(toks[0].as_slice());
    let path = string_of(toks[1].as_slice());
    let label = chars_of("content-length:");
    let mut headers: Vec<(String, String)> = Vec::new();
    let mut content_length: usize = 0;
    let mut i: usize = 1;
    assert(all.skip(1).take(0) =~= Seq::<Seq<char>>::empty());
    while i < ls.len()
        invariant
            1 <= i <= ls@.len(),
            all == seqs_of(ls@),
            label@ == "content-length:"@,
            header_views(headers@) == headers_of(all.skip(1).take(i - 1)),
            content_length == content_length_of(all.skip(1).take(i - 1)),
        decreases ls@.len() - i,
    {
        let ghost done = all.skip(1).take(i - 1);
        let ghost next = all.skip(1).take(i as int);
        assert(next.drop_last() =~= done);
        assert(next.last() == all[i as int]);
        assert(all[i as int] == ls@[i as int]@);
        let line = ls[i].as_slice();
        match header_line(line) {
            Some(h) => {
                let ghost before = headers@;
                headers.push(h);
                assert(header_views(headers@) =~= header_views(before).push((h.0@, h.1@)));
            },
            None => {},
        }
        match content_length_line(line, label.as_slice()) {
            Some(v) => {
                content_length = v;
            },
            None => {},
        }
        i = i + 1;
    }
    assert(all.skip(1).take(i - 1) =~= all.skip(1));
    Ok(RequestHead { method, path, headers, content_length })
}

// ---------------------------------------------------------------------------
// Header lookup
// ---------------------------------------------------------------------------

/// Value of the first header whose name matches `name` in any ASCII case.
pub open spec fn find_header(hs: Seq<(Seq<char>, Seq<char>)>, name: Seq<char>) -> Option<Seq<char>>
    decreases hs.len(),
{
    if hs.len() == 0 {
        None
    } else if ci_eq(hs[0].0, name) {
        Some(hs[0].1)
    } else {
        find_header(hs.skip(1), name)
    }
}

/// Header lookup does not depend on the ASCII case of the requested name.
pub proof fn lemma_header_lookup_ignores_case(
    hs: Seq<(Seq<char>, Seq<char>)>,
    a: Seq<char>,
    b: Seq<char>,
)
    requires
        ci_eq(a, b),
    ensures
        find_header(hs, a) == find_header(hs, b),
    decreases hs.len(),
{
    if hs.len() > 0 {
        let n = hs[0].0;
        assert(ci_eq(n, a) == ci_eq(n, b));
        lemma_header_lookup_ignores_case(hs.skip(1), a, b);
    }
}

impl HttpRequest {
    /// Builds a request from its head and the body that followed it.
    pub fn from_head(head: RequestHead, body: Vec<u8>) -> (r: HttpRequest)
        ensures
            r.method == head.method,
            r.path == head.path,
            r.headers == head.headers,
            r.body == body,
    {
        HttpRequest { method: head.method, path: head.path, headers: head.headers, body }
    }

    /// Value of the first header named `name`, compared without regard to
    /// ASCII case.
    pub fn header(&self, name: &str) -> (r: Option<&str>)
        ensures
            r matches Some(v) ==> find_header(header_views(self.headers@), name@) == Some(v@),
            r is None ==> find_header(header_views(self.headers@), name@) is None,
    {
        let want = chars_of(name);
        let ghost hs = header_views(self.headers@);
        let mut i: usize = 0;
        assert(hs.skip(0) =~= hs);
        while i < self.headers.len()
            invariant
                i <= self.headers@.len(),
                hs == header_views(self.headers@),
                want@ == name@,
                find_header(hs, name@) == find_header(hs.skip(i as int), name@),
            decreases self.headers@.len() - i,
        {
            let hname = chars_of(self.headers[i].0.as_str());
            assert(hs.skip(i as int)[0] == hs[i as int]);
            assert(hs.skip(i as int).skip(1) =~= hs.skip(i + 1));
            if hname.len() == want.len() && eq_ignore_ascii_case_at(hname.as_slice(), 0, want.as_slice()) {
                assert(hname@.subrange(0, want@.len() as int) =~= hname@);
                return Some(self.headers[i].1.as_str());
            }
            proof {
                if ci_eq(hname@, want@) {
                    assert(hname@.subrange(0, want@.len() as int) =~= hname@);
                }
            }
            i = i + 1;
        }
        None
    }
}

// ---------------------------------------------------------------------------
// Responses
// ---------------------------------------------------------------------------

/// Reason phrase that the server writes after a status code.
pub open spec fn spec_status_reason(code: u16) -> Seq<char> {
    if code == 200 {
        "OK"@
    } else if code == 202 {
        "Accepted"@
    } else if code == 400 {
        "Bad Request"@
    } else if code == 404 {
        "Not Found"@
    } else if code == 405 {
        "Method Not Allowed"@
    } else if code == 500 {
        "Internal Server Error"@
    } else {
        "OK"@
    }
}

/// Map HTTP status codes to reason phrases.
pub fn status_reason(code: u16) -> (r: &'static str)
    ensures
        r@ == spec_status_reason(code),
{
    match code {
        200 => "OK",
        202 => "Accepted",
        400 => "Bad Request",
        404 => "Not Found",
        405 => "Method Not Allowed",
        500 => "Internal Server Error",
        _ => "OK",
    }
}

/// The status line and headers of a JSON response whose body is `body_len`
/// bytes long.
pub open spec fn spec_response_head(status: u16, body_len: usize) -> Seq<char> {
    "HTTP/1.1 "@ + decimal_digits(status as nat) + " "@ + spec_status_reason(status)
        + "\r\nContent-Type: application/json\r\nContent-Length: "@ + decimal_digits(body_len as nat)
        + "\r\nConnection: close\r\n\r\n"@
}

/// Status line and headers that precede a JSON body of `body_len` bytes.
pub fn response_head(status: u16, body_len: usize) -> (r: String)
    ensures
        r@ == spec_response_head(status, body_len),
{
    let mut out: Vec<char> = Vec::new();
    push_all(&mut out, chars_of("HTTP/1.1 ").as_slice());
    push_decimal(&mut out, status as u64);
    push_all(&mut out, chars_of(" ").as_slice());
    push_all(&mut out, chars_of(status_reason(status)).as_slice());
    push_all(&mut out, chars_of("\r\nContent-Type: application/json\r\nContent-Length: ").as_slice());
    push_decimal(&mut out, body_len as u64);
    push_all(&mut out, chars_of("\r\nConnection: close\r\n\r\n").as_slice());
    string_of(out.as_slice())
}

// ---------------------------------------------------------------------------
// Basic authorization
// ---------------------------------------------------------------------------

/// The password carried by an `Authorization: Basic ...` header value: the
/// part after the first `:` of the base64-decoded `user:password` text.
pub open spec fn spec_basic_auth_password(h: Seq<char>) -> Option<Seq<char>> {
    if h.len() >= 6 && ci_eq(h.take(6), "Basic "@) {
        match base64::decode(h.skip(6)) {
            Some(bytes) => if valid_utf8(bytes) {
                let t = decode_utf8(bytes);
                match index_of_char(t, ':') {
                    Some(k) => Some(t.skip(k + 1)),
                    None => None,
                }
            } else {
                None
            },
            None => None,
        }
    } else {
        None
    }
}

/// Extracts the password from an HTTP Basic authorization header value.
/// Returns `None` for any other scheme and for credentials that are not
/// valid base64 UTF-8 text of the form `user:password`.
pub fn basic_auth_password(header: &str) -> (r: Option<String>)
    ensures
        r matches Some(p) ==> spec_basic_auth_password(header@) == Some(p@),
        r is None ==> spec_basic_auth_password(header@) is None,
{
    let h = chars_of(header);
    let scheme = chars_of("Basic ");
    proof {
        reveal_strlit("Basic ");
    }
    if h.len() < 6 || !eq_ignore_ascii_case_at(h.as_slice(), 0, scheme.as_slice()) {
        assert(h@.len() >= 6 ==> h@.subrange(0, 6) =~= h@.take(6));
        return None;
    }
    assert(h@.subrange(0, 6) =~= h@.take(6));
    let encoded = copy_range(h.as_slice(), 6, h.len());
    assert(encoded@ =~= h@.skip(6));
    let bytes = match base64::decode_base64(encoded.as_slice()) {
        Some(b) => b,
        None => {
            return None;
        },
    };
    let text = match utf8_chars(bytes.as_slice()) {
        Some(t) => t,
        None => {
            return None;
        },
    };
    match find_char(text.as_slice(), ':') {
        Some(k) => {
            proof {
                lemma_index_of_char(text@, ':');
            }
            let pw = copy_range(text.as_slice(), k + 1, text.len());
            assert(pw@ =~= text@.skip(k + 1));
            Some(string_of(pw.as_slice()))
        },
        None => None,
    }
}

} // verus!
