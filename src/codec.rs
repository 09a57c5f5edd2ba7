//! Framing of JSON-RPC messages with `Content-Length` headers.
use vstd::prelude::*;
use vstd::utf8::{decode_utf8, valid_utf8};

verus! {

/// The ASCII digit of a value below ten.
pub open spec fn digit_char(d: nat) -> char {
    if d == 0 {
        '0'
    } else if d == 1 {
        '1'
    } else if d == 2 {
        '2'
    } else if d == 3 {
        '3'
    } else if d == 4 {
        '4'
    } else if d == 5 {
        '5'
    } else if d == 6 {
        '6'
    } else if d == 7 {
        '7'
    } else if d == 8 {
        '8'
    } else {
        '9'
    }
}

/// The decimal text of a natural number, without leading zeros.
pub open spec fn decimal(n: nat) -> Seq<char>
    decreases n,
{
    if n < 10 {
        seq![digit_char(n)]
    } else {
        decimal(n / 10) + seq![digit_char(n % 10)]
    }
}

/// The decimal text of an integer, with a leading `-` when it is negative.
pub open spec fn signed_decimal(n: int) -> Seq<char> {
    if n < 0 {
        seq!['-'] + decimal((-n) as nat)
    } else {
        decimal(n as nat)
    }
}

/// The number of decimal digits of `n`; zero has none.
pub open spec fn digit_count(n: nat) -> nat
    decreases n,
{
    if n == 0 {
        0
    } else {
        1 + digit_count(n / 10)
    }
}

proof fn lemma_digit_count_bound(n: nat)
    ensures
        digit_count(n) <= n,
    decreases n,
{
    if n > 0 {
        lemma_digit_count_bound(n / 10);
    }
}

fn digit_text(d: u64) -> (r: &'static str)
    requires
        d < 10,
    ensures
        r@ == seq![digit_char(d as nat)],
{
    if d == 0 {
        proof { reveal_strlit("0"); }
        "0"
    } else if d == 1 {
        proof { reveal_strlit("1"); }
        "1"
    } else if d == 2 {
        proof { reveal_strlit("2"); }
        "2"
    } else if d == 3 {
        proof { reveal_strlit("3"); }
        "3"
    } else if d == 4 {
        proof { reveal_strlit("4"); }
        "4"
    } else if d == 5 {
        proof { reveal_strlit("5"); }
        "5"
    } else if d == 6 {
        proof { reveal_strlit("6"); }
        "6"
    } else if d == 7 {
        proof { reveal_strlit("7"); }
        "7"
    } else if d == 8 {
        proof { reveal_strlit("8"); }
        "8"
    } else {
        proof { reveal_strlit("9"); }
        "9"
    }
}

/// Returns the decimal text of `n`.
pub fn format_unsigned(n: u64) -> (r: String)
    ensures
        r@ == decimal(n as nat),
    decreases n,
{
    if n < 10 {
        String::from_str(digit_text(n))
    } else {
        let head = format_unsigned(n / 10);
        head.concat(digit_text(n % 10))
    }
}

/// Returns the decimal text of `n`, with a leading `-` when it is negative.
pub fn format_signed(n: i64) -> (r: String)
    ensures
        r@ == signed_decimal(n as int),
{
    if n < 0 {
        let m: u64 = if n == i64::MIN {
            9223372036854775808u64
        } else {
            (-n) as u64
        };
        let digits = format_unsigned(m);
        proof { reveal_strlit("-"); }
        String::from_str("-").concat(digits.as_str())
    } else {
        format_unsigned(n as u64)
    }
}

/// Returns the number of decimal digits of `n`; zero has none.
pub fn number_of_digits(n: usize) -> (r: usize)
    ensures
        r == digit_count(n as nat),
{
    proof { lemma_digit_count_bound(n as nat); }
    let mut m: usize = n;
    let mut num_digits: usize = 0;
    while m > 0
        invariant
            num_digits + digit_count(m as nat) == digit_count(n as nat),
            digit_count(n as nat) <= n,
        decreases m,
    {
        m = m / 10;
        num_digits = num_digits + 1;
    }
    num_digits
}

/// The ASCII digits of `n` in decimal, without leading zeros.
pub open spec fn decimal_bytes(n: nat) -> Seq<u8>
    decreases n,
{
    if n < 10 {
        seq![(48 + n) as u8]
    } else {
        decimal_bytes(n / 10) + seq![(48 + n % 10) as u8]
    }
}

/// Appends the decimal digits of `n` to `dst`.
fn push_decimal(dst: &mut Vec<u8>, n: usize)
    ensures
        final(dst)@ == old(dst)@ + decimal_bytes(n as nat),
    decreases n,
{
    if n < 10 {
        dst.push((48 + n) as u8);
        assert(final(dst)@ =~= old(dst)@ + decimal_bytes(n as nat));
    } else {
        push_decimal(dst, n / 10);
        dst.push((48 + n % 10) as u8);
        assert(final(dst)@ =~= old(dst)@ + decimal_bytes(n as nat));
    }
}

/// The bytes of the header name `Content-Length`.
pub open spec fn content_length_name() -> Seq<u8> {
    seq![67u8, 111u8, 110u8, 116u8, 101u8, 110u8, 116u8, 45u8, 76u8, 101u8, 110u8, 103u8, 116u8, 104u8]
}

fn content_length_bytes() -> (r: Vec<u8>)
    ensures
        r@ == content_length_name(),
{
    let r: Vec<u8> = vec![67u8, 111u8, 110u8, 116u8, 101u8, 110u8, 116u8, 45u8, 76u8, 101u8, 110u8, 103u8, 116u8, 104u8];
    assert(r@ =~= content_length_name());
    r
}

/// One framed message: `Content-Length: <n>\r\n\r\n` followed by the `n` bytes of the body.
pub open spec fn frame(body: Seq<u8>) -> Seq<u8> {
    content_length_name() + seq![58u8, 32u8] + decimal_bytes(body.len()) + seq![13u8, 10u8, 13u8, 10u8]
        + body
}

/// Appends one framed message with the given body to `dst`.
pub fn encode_frame(body: &[u8], dst: &mut Vec<u8>)
    ensures
        final(dst)@ == old(dst)@ + frame(body@),
{
    let mut name = content_length_bytes();
    dst.append(&mut name);
    dst.push(58u8);
    dst.push(32u8);
    push_decimal(dst, body.len());
    dst.push(13u8);
    dst.push(10u8);
    dst.push(13u8);
    dst.push(10u8);
    let mut i: usize = 0;
    let ghost start = dst@;
    while i < body.len()
        invariant
            i <= body@.len(),
            dst@ == start + body@.subrange(0, i as int),
        decreases body@.len() - i,
    {
        dst.push(body[i]);
        assert(body@.subrange(0, i + 1) == body@.subrange(0, i as int).push(body@[i as int]));
        i = i + 1;
    }
    assert(body@.subrange(0, i as int) == body@);
    assert(final(dst)@ =~= old(dst)@ + frame(body@));
}

/// Whether `pat` occurs in `text` at `at`.
pub open spec fn occurs_at(text: Seq<u8>, pat: Seq<u8>, at: int) -> bool {
    0 <= at && at + pat.len() <= text.len() && text.subrange(at, at + pat.len()) == pat
}

/// Relies on `twoway::find_bytes`, which finds the first occurrence of the pattern.
#[verifier::external_body]
fn find_bytes(text: &[u8], pat: &[u8]) -> (r: Option<usize>)
    ensures
        r is Some ==> occurs_at(text@, pat@, r->Some_0 as int) && forall|j: int|
            0 <= j < r->Some_0 ==> !occurs_at(text@, pat@, j),
        r is None ==> forall|j: int| !occurs_at(text@, pat@, j),
{
    twoway::find_bytes(text, pat)
}

/// Relies on `std::str::from_utf8`, which accepts exactly the valid UTF-8 encodings.
#[verifier::external_body]
fn from_utf8(b: &[u8]) -> (r: Result<String, std::str::Utf8Error>)
    ensures
        r is Ok <==> valid_utf8(b@),
        r is Ok ==> r->Ok_0@ == decode_utf8(b@),
{
    std::str::from_utf8(b).map(|s| s.to_string())
}

/// What the JSON reader makes of a text: a value, or nothing when the text is not JSON.
pub uninterp spec fn json_parse(s: Seq<char>) -> Option<serde_json::Value>;

/// Relies on `serde_json::from_str`, whose result depends on the text alone.
#[verifier::external_body]
fn parse_json(s: &str) -> (r: Result<serde_json::Value, String>)
    ensures
        r is Ok <==> json_parse(s@) is Some,
        r is Ok ==> r->Ok_0 == json_parse(s@)->Some_0,
{
    serde_json::from_str(s).map_err(|e| e.to_string())
}

/// The JSON text that the writer makes of a value, as bytes.
pub uninterp spec fn json_bytes(v: serde_json::Value) -> Seq<u8>;

/// Relies on `serde_json::to_vec`: its result depends on the value alone, and writing a
/// `Value` into a `Vec` never fails, since a `Value`'s maps have string keys only.
#[verifier::external_body]
fn write_json(v: &serde_json::Value) -> (r: Result<Vec<u8>, String>)
    ensures
        r is Ok,
        r->Ok_0@ == json_bytes(*v),
{
    serde_json::to_vec(v).map_err(|e| e.to_string())
}

/// One header line: its name and its value.
#[derive(Clone, Debug, PartialEq, Eq)]
pub struct HeaderLine {
    pub name: Vec<u8>,
    pub value: Vec<u8>,
}

/// What the header parser found at the start of a buffer.
#[derive(Clone, Debug, PartialEq, Eq)]
pub enum HeaderScan {
    /// A complete header block of the given length, with its header lines.
    Complete(usize, Vec<HeaderLine>),
    /// The header block is not complete yet.
    Partial,
    /// The header block is malformed; the parser's description of the fault.
    Invalid(String),
}

/// What a header scan is, over byte sequences.
pub enum HeaderScanView {
    Complete(nat, Seq<(Seq<u8>, Seq<u8>)>),
    Partial,
    Invalid(Seq<char>),
}

impl View for HeaderScan {
    type V = HeaderScanView;

    open spec fn view(&self) -> HeaderScanView {
        match self {
            HeaderScan::Complete(n, hs) => HeaderScanView::Complete(
                *n as nat,
                hs@.map_values(|h: HeaderLine| (h.name@, h.value@)),
            ),
            HeaderScan::Partial => HeaderScanView::Partial,
            HeaderScan::Invalid(e) => HeaderScanView::Invalid(e@),
        }
    }
}

/// What the header parser makes of the start of a buffer, with room for two headers.
pub uninterp spec fn header_scan(b: Seq<u8>) -> HeaderScanView;

/// Relies on `httparse::parse_headers`, whose result depends on the bytes alone; a
/// complete block lies within the buffer and holds at most as many headers as there is
/// room for.
#[verifier::external_body]
fn scan_headers(src: &[u8]) -> (r: HeaderScan)
    ensures
        r@ == header_scan(src@),
        r is Complete ==> r->Complete_0 <= src@.len() && r->Complete_1@.len() <= 2,
{
    let dst = &mut [httparse::EMPTY_HEADER; 2];
    match httparse::parse_headers(src, dst) {
        Ok(httparse::Status::Complete((n, hs))) => {
            let lines = hs.iter().map(|h| HeaderLine {
                name: h.name.as_bytes().to_vec(),
                value: h.value.to_vec(),
            });
            HeaderScan::Complete(n, lines.collect())
        },
        Ok(httparse::Status::Partial) => HeaderScan::Partial,
        Err(e) => HeaderScan::Invalid(e.to_string()),
    }
}

/// Whether a byte is an ASCII decimal digit.
pub open spec fn is_digit(b: u8) -> bool {
    48 <= b <= 57
}

/// The value of a sequence of decimal digits.
pub open spec fn digits_value(s: Seq<u8>) -> nat
    decreases s.len(),
{
    if s.len() == 0 {
        0
    } else {
        digits_value(s.drop_last()) * 10 + (s.last() - 48) as nat
    }
}

/// The digits of a length: the bytes after an optional leading `+`.
pub open spec fn length_digits(s: Seq<u8>) -> Seq<u8> {
    if s.len() > 0 && s[0] == 43u8 {
        s.drop_first()
    } else {
        s
    }
}

/// What a header value says as a length, as `str::parse::<usize>` reads it: an optional
/// `+`, then one or more decimal digits whose value fits in `usize`.
pub open spec fn length_value(s: Seq<u8>) -> Option<usize> {
    let d = length_digits(s);
    if d.len() > 0 && (forall|i: int| 0 <= i < d.len() ==> is_digit(#[trigger] d[i])) && digits_value(d)
        <= usize::MAX {
        Some(digits_value(d) as usize)
    } else {
        None
    }
}

proof fn lemma_digits_value_grows(s: Seq<u8>, k: int)
    requires
        0 <= k <= s.len(),
        forall|i: int| 0 <= i < s.len() ==> is_digit(#[trigger] s[i]),
    ensures
        digits_value(s.subrange(0, k)) <= digits_value(s),
    decreases s.len() - k,
{
    if k < s.len() {
        lemma_digits_value_grows(s, k + 1);
        assert(s.subrange(0, k + 1).drop_last() == s.subrange(0, k));
    } else {
        assert(s.subrange(0, k) == s);
    }
}

/// Reads a length from the bytes of a header value.
fn parse_length(s: &[u8]) -> (r: Option<usize>)
    ensures
        r == length_value(s@),
{
    let start: usize = if s.len() > 0 && s[0] == 43u8 { 1 } else { 0 };
    let ghost d = length_digits(s@);
    assert(d == s@.subrange(start as int, s@.len() as int));
    if start >= s.len() {
        return None;
    }
    let mut i: usize = start;
    let mut acc: usize = 0;
    while i < s.len()
        invariant
            start <= i <= s@.len(),
            d == s@.subrange(start as int, s@.len() as int),
            d == length_digits(s@),
            forall|j: int| 0 <= j < i - start ==> is_digit(#[trigger] d[j]),
            acc as nat == digits_value(d.subrange(0, i - start)),
        decreases s@.len() - i,
    {
        let b = s[i];
        if b < 48u8 || b > 57u8 {
            assert(d[i - start] == s@[i as int]);
            assert(!is_digit(d[i - start]));
            assert(!(forall|j: int| 0 <= j < d.len() ==> is_digit(#[trigger] d[j])));
            return None;
        }
        assert(d.subrange(0, i + 1 - start).drop_last() == d.subrange(0, i - start));
        let next = match acc.checked_mul(10) {
            Some(x) => x.checked_add((b - 48u8) as usize),
            None => None,
        };
        match next {
            Some(v) => {
                acc = v;
            },
            None => {
                proof {
                    let p = d.subrange(0, i + 1 - start);
                    assert(p.last() == b);
                    assert(digits_value(p) == acc * 10 + (b - 48) as nat);
                    assert(digits_value(p) > usize::MAX);
                    assert forall|j: int| 0 <= j < i + 1 - start implies is_digit(#[trigger] d.subrange(0, i + 1 - start)[j]) by {
                        if j < i - start {
                            assert(d.subrange(0, i + 1 - start)[j] == d[j]);
                        }
                    }
                    if forall|j: int| 0 <= j < d.len() ==> is_digit(#[trigger] d[j]) {
                        lemma_digits_value_grows(d, i + 1 - start);
                        assert(digits_value(d) > usize::MAX);
                    }
                }
                return None;
            },
        }
        i = i + 1;
    }
    assert(d.subrange(0, i - start) == d);
    Some(acc)
}

/// Errors that can occur when decoding or encoding an LSP message.
#[derive(Debug)]
pub enum ParseError {
    /// Failed to parse the JSON body; the reader's description of the fault.
    Body(String),
    /// Failed to parse headers; the header parser's description of the fault.
    Httparse(String),
    /// The length value in the `Content-Length` header is invalid.
    InvalidLength,
    /// Request lacks the required `Content-Length` header.
    MissingHeader,
    /// Request contains invalid UTF-8.
    Utf8(std::str::Utf8Error),
}

/// The first position at which `pat` occurs in `text`.
pub open spec fn is_first_occurrence(text: Seq<u8>, pat: Seq<u8>, at: int) -> bool {
    occurs_at(text, pat, at) && forall|j: int| 0 <= j < at ==> !occurs_at(text, pat, j)
}

/// Where `pat` first occurs in `text`, if anywhere.
pub open spec fn first_occurrence(text: Seq<u8>, pat: Seq<u8>) -> Option<int> {
    if exists|at: int| is_first_occurrence(text, pat, at) {
        Some(choose|at: int| is_first_occurrence(text, pat, at))
    } else {
        None
    }
}

/// The decoder's memory between calls.
pub struct CodecView {
    /// The fault of the last header block that failed to parse, if not cleared since.
    pub http_error: Option<Seq<char>>,
    /// The length of the header block, once parsed.
    pub headers_len: Option<usize>,
    /// The announced body length, once parsed.
    pub content_len: Option<usize>,
}

/// A decoder with nothing remembered.
pub open spec fn fresh_codec() -> CodecView {
    CodecView { http_error: None, headers_len: None, content_len: None }
}

/// Where the walk over the header lines ends: with the body length found so far, or at a
/// `Content-Length` value that is not UTF-8, or one that is not a length.
pub enum LengthScan {
    Lengths(Option<usize>),
    BadUtf8(Option<usize>),
    BadLength(Option<usize>),
}

/// Walks the first `n` header lines, starting from the body length `start`; the last
/// `Content-Length` line counts.
pub open spec fn scan_lengths(hs: Seq<(Seq<u8>, Seq<u8>)>, n: nat, start: Option<usize>) -> LengthScan
    decreases n,
{
    if n == 0 {
        LengthScan::Lengths(start)
    } else {
        match scan_lengths(hs, (n - 1) as nat, start) {
            LengthScan::Lengths(c) => {
                let line = hs[n - 1];
                if line.0 == content_length_name() {
                    if !valid_utf8(line.1) {
                        LengthScan::BadUtf8(c)
                    } else {
                        match length_value(line.1) {
                            Some(v) => LengthScan::Lengths(Some(v)),
                            None => LengthScan::BadLength(c),
                        }
                    }
                } else {
                    LengthScan::Lengths(c)
                }
            },
            other => other,
        }
    }
}

proof fn lemma_scan_stops(hs: Seq<(Seq<u8>, Seq<u8>)>, k: nat, m: nat, start: Option<usize>)
    requires
        k <= m,
        !(scan_lengths(hs, k, start) is Lengths),
    ensures
        scan_lengths(hs, m, start) == scan_lengths(hs, k, start),
    decreases m - k,
{
    if k < m {
        lemma_scan_stops(hs, k, (m - 1) as nat, start);
    }
}

/// What one call of the decoder yields.
pub enum Outcome {
    /// More input is needed.
    Incomplete,
    /// A whole message with this body text.
    Message(Seq<char>),
    /// A `Content-Length` value, or the body, is not UTF-8.
    BadUtf8,
    /// A `Content-Length` value is not a length.
    InvalidLength,
    /// No `Content-Length` header.
    MissingHeader,
    /// A malformed header block, with the parser's description.
    BadHeader(Seq<char>),
}

/// The second half of a decoding step, once the header block has been looked at: the
/// decoder's memory, the buffer, and what is yielded.
pub open spec fn frame_step(c: CodecView, b: Seq<u8>) -> (CodecView, Seq<u8>, Outcome) {
    if c.headers_len is Some && c.content_len is Some {
        let h = c.headers_len->Some_0 as int;
        let n = c.content_len->Some_0 as int;
        if h + n > b.len() {
            (c, b, Outcome::Incomplete)
        } else if !valid_utf8(b.subrange(h, h + n)) {
            (c, b, Outcome::BadUtf8)
        } else {
            (fresh_codec(), b.skip(h + n), Outcome::Message(decode_utf8(b.subrange(h, h + n))))
        }
    } else {
        match first_occurrence(b, content_length_name()) {
            Some(at) => (fresh_codec(), b.skip(at), Outcome::MissingHeader),
            None => (c, b, match c.http_error {
                Some(e) => Outcome::BadHeader(e),
                None => Outcome::MissingHeader,
            }),
        }
    }
}

/// One decoding step from memory `c` and buffer `b`, given what the header parser makes
/// of `b`.
pub open spec fn decode_step(c: CodecView, b: Seq<u8>, scan: HeaderScanView) -> (CodecView, Seq<u8>, Outcome) {
    if c.headers_len is Some {
        frame_step(c, b)
    } else {
        match scan {
            HeaderScanView::Partial => (c, b, Outcome::Incomplete),
            HeaderScanView::Invalid(e) => frame_step(CodecView { http_error: Some(e), ..c }, b),
            HeaderScanView::Complete(n, hs) => {
                let c1 = CodecView { headers_len: Some(n as usize), ..c };
                match scan_lengths(hs, hs.len(), c.content_len) {
                    LengthScan::Lengths(l) => frame_step(CodecView { content_len: l, ..c1 }, b),
                    LengthScan::BadUtf8(l) => (CodecView { content_len: l, ..c1 }, b, Outcome::BadUtf8),
                    LengthScan::BadLength(l) => (CodecView { content_len: l, ..c1 }, b, Outcome::InvalidLength),
                }
            },
        }
    }
}

/// Whether `r` is what the decoder returns for outcome `o`.
pub open spec fn yields(o: Outcome, r: Result<Option<serde_json::Value>, ParseError>) -> bool {
    match o {
        Outcome::Incomplete => r == Ok::<Option<serde_json::Value>, ParseError>(None),
        Outcome::Message(t) => match json_parse(t) {
            Some(v) => r == Ok::<Option<serde_json::Value>, ParseError>(Some(v)),
            None => r is Err && r->Err_0 is Body,
        },
        Outcome::BadUtf8 => r is Err && r->Err_0 is Utf8,
        Outcome::InvalidLength => r is Err && r->Err_0 is InvalidLength,
        Outcome::MissingHeader => r is Err && r->Err_0 is MissingHeader,
        Outcome::BadHeader(e) => r is Err && r->Err_0 is Httparse && r->Err_0->Httparse_0@ == e,
    }
}

/// Encodes and decodes Language Server Protocol messages.
#[derive(Clone, Debug)]
pub struct LanguageServerCodec {
    http_error: Option<String>,
    headers_len: Option<usize>,
    content_len: Option<usize>,
}

impl View for LanguageServerCodec {
    type V = CodecView;

    closed spec fn view(&self) -> CodecView {
        CodecView {
            http_error: match self.http_error {
                Some(e) => Some(e@),
                None => None,
            },
            headers_len: self.headers_len,
            content_len: self.content_len,
        }
    }
}

impl LanguageServerCodec {
    /// A decoder with nothing remembered.
    pub fn new() -> (r: LanguageServerCodec)
        ensures
            r@ == fresh_codec(),
    {
        LanguageServerCodec { http_error: None, headers_len: None, content_len: None }
    }

    fn reset(&mut self)
        ensures
            final(self)@ == fresh_codec(),
    {
        self.http_error = None;
        self.headers_len = None;
        self.content_len = None;
    }

    /// Appends one framed message holding `item` as JSON to `dst`.
    pub fn encode(&mut self, item: &serde_json::Value, dst: &mut Vec<u8>) -> (r: Result<(), ParseError>)
        ensures
            final(self)@ == old(self)@,
            r is Ok,
            final(dst)@ == old(dst)@ + frame(json_bytes(*item)),
    {
        match write_json(item) {
            Ok(msg) => {
                encode_frame(msg.as_slice(), dst);
                Ok(())
            },
            Err(e) => Err(ParseError::Body(e)),
        }
    }

    /// One decoding step given what the header parser makes of `src`: either a whole
    /// message is taken off the front of `src`, or more input is awaited, or an error is
    /// reported, after skipping to the next `Content-Length` where there is no usable
    /// header block.
    pub fn decode_scanned(&mut self, src: &mut Vec<u8>, scan: HeaderScan) -> (r: Result<Option<serde_json::Value>, ParseError>)
        ensures
            ({
                let (c, b, o) = decode_step(old(self)@, old(src)@, scan@);
                &&& final(self)@ == c
                &&& final(src)@ == b
                &&& yields(o, r)
            }),
    {
        let ghost scan_v = scan@;
        if self.headers_len.is_none() {
            match &scan {
                HeaderScan::Partial => {
                    return Ok(None);
                },
                HeaderScan::Invalid(e) => {
                    self.http_error = Some(e.clone());
                },
                HeaderScan::Complete(n, lines) => {
                    let n = *n;
                    self.headers_len = Some(n);
                    let ghost hs = lines@.map_values(|h: HeaderLine| (h.name@, h.value@));
                    let name = content_length_bytes();
                    let mut i: usize = 0;
                    while i < lines.len()
                        invariant
                            i <= lines@.len(),
                            hs == lines@.map_values(|h: HeaderLine| (h.name@, h.value@)),
                            scan_v == HeaderScanView::Complete(n as nat, hs),
                            scan@ == scan_v,
                            old(self).headers_len is None,
                            src@ == old(src)@,
                            name@ == content_length_name(),
                            self.headers_len == Some(n),
                            self.http_error == old(self).http_error,
                            scan_lengths(hs, i as nat, old(self)@.content_len) == LengthScan::Lengths(self.content_len),
                        decreases lines@.len() - i,
                    {
                        let line = &lines[i];
                        assert(hs[i as int] == (line.name@, line.value@));
                        if bytes_eq(line.name.as_slice(), name.as_slice()) {
                            match from_utf8(line.value.as_slice()) {
                                Ok(_) => {},
                                Err(e) => {
                                    proof {
                                        assert(scan_lengths(hs, (i + 1) as nat, old(self)@.content_len)
                                            == LengthScan::BadUtf8(self.content_len));
                                        lemma_scan_stops(hs, (i + 1) as nat, hs.len(), old(self)@.content_len);
                                    }
                                    return Err(ParseError::Utf8(e));
                                },
                            }
                            match parse_length(line.value.as_slice()) {
                                Some(v) => {
                                    self.content_len = Some(v);
                                },
                                None => {
                                    proof {
                                        assert(scan_lengths(hs, (i + 1) as nat, old(self)@.content_len)
                                            == LengthScan::BadLength(self.content_len));
                                        lemma_scan_stops(hs, (i + 1) as nat, hs.len(), old(self)@.content_len);
                                    }
                                    return Err(ParseError::InvalidLength);
                                },
                            }
                        }
                        i = i + 1;
                    }
                },
            }
        }
        self.decode_frame(src)
    }

    /// Decodes the next message at the front of `src`. The header block is parsed again
    /// only while its length is not known; while a known frame is incomplete the call
    /// returns at once.
    pub fn decode(&mut self, src: &mut Vec<u8>) -> (r: Result<Option<serde_json::Value>, ParseError>)
        ensures
            ({
                let (c, b, o) = decode_step(old(self)@, old(src)@, header_scan(old(src)@));
                &&& final(self)@ == c
                &&& final(src)@ == b
                &&& yields(o, r)
            }),
    {
        let scan = if self.headers_len.is_none() {
            scan_headers(src.as_slice())
        } else {
            HeaderScan::Partial
        };
        proof {
            if old(self)@.headers_len is None {
                assert(scan@ == header_scan(old(src)@));
            }
        }
        self.decode_scanned(src, scan)
    }

    /// Gets past input that `decode` keeps rejecting: a whole frame whose length is known
    /// is dropped, else the first byte; the decoder forgets what it had parsed, so that the
    /// next `decode` looks for the next `Content-Length`.
    pub fn skip(&mut self, src: &mut Vec<u8>)
        ensures
            final(self)@ == fresh_codec(),
            ({
                let c = old(self)@;
                let b = old(src)@;
                if c.headers_len is Some && c.content_len is Some && c.headers_len->Some_0
                    + c.content_len->Some_0 <= b.len() {
                    final(src)@ == b.skip(c.headers_len->Some_0 + c.content_len->Some_0)
                } else if b.len() > 0 {
                    final(src)@ == b.skip(1)
                } else {
                    final(src)@ == b
                }
            }),
    {
        let mut end: usize = if src.len() > 0 { 1 } else { 0 };
        if let (Some(h), Some(n)) = (self.headers_len, self.content_len) {
            if n <= src.len() && h <= src.len() - n {
                end = h + n;
            }
        }
        let rest = src.split_off(end);
        *src = rest;
        self.reset();
        assert(src@ =~= old(src)@.skip(end as int));
    }

    fn decode_frame(&mut self, src: &mut Vec<u8>) -> (r: Result<Option<serde_json::Value>, ParseError>)
        ensures
            ({
                let (c, b, o) = frame_step(old(self)@, old(src)@);
                &&& final(self)@ == c
                &&& final(src)@ == b
                &&& yields(o, r)
            }),
    {
        match (self.headers_len, self.content_len) {
            (Some(h), Some(n)) => {
                if n > src.len() || h > src.len() - n {
                    return Ok(None);
                }
                let end = h + n;
                let body = from_utf8(&src.as_slice()[h..end]);
                let text = match body {
                    Ok(text) => text,
                    Err(e) => {
                        return Err(ParseError::Utf8(e));
                    },
                };
                let result = match parse_json(text.as_str()) {
                    Ok(v) => Ok(Some(v)),
                    Err(e) => Err(ParseError::Body(e)),
                };
                let rest = src.split_off(end);
                *src = rest;
                self.reset();
                assert(src@ =~= old(src)@.skip(end as int));
                result
            },
            _ => {
                let name = content_length_bytes();
                let found = find_bytes(src.as_slice(), name.as_slice());
                proof {
                    let b = old(src)@;
                    let pat = content_length_name();
                    match found {
                        Some(at) => {
                            assert(is_first_occurrence(b, pat, at as int));
                            let j = choose|j: int| is_first_occurrence(b, pat, j);
                            assert(is_first_occurrence(b, pat, j));
                            if j < at {
                                assert(!occurs_at(b, pat, j));
                            }
                            if j > at {
                                assert(!occurs_at(b, pat, at as int));
                            }
                            assert(first_occurrence(b, pat) == Some(at as int));
                        },
                        None => {
                            assert(!exists|j: int| is_first_occurrence(b, pat, j));
                        },
                    }
                }
                if let Some(offset) = found {
                    let rest = src.split_off(offset);
                    *src = rest;
                    self.reset();
                    assert(src@ =~= old(src)@.skip(offset as int));
                }
                match &self.http_error {
                    Some(e) => Err(ParseError::Httparse(e.clone())),
                    None => Err(ParseError::MissingHeader),
                }
            },
        }
    }
}

fn bytes_eq(a: &[u8], b: &[u8]) -> (r: bool)
    ensures
        r == (a@ == b@),
{
    if a.len() != b.len() {
        return false;
    }
    let mut i: usize = 0;
    while i < a.len()
        invariant
            a@.len() == b@.len(),
            i <= a@.len(),
            a@.subrange(0, i as int) == b@.subrange(0, i as int),
        decreases a@.len() - i,
    {
        if a[i] != b[i] {
            return false;
        }
        assert(a@.subrange(0, i + 1) == a@.subrange(0, i as int).push(a@[i as int]));
        assert(b@.subrange(0, i + 1) == b@.subrange(0, i as int).push(b@[i as int]));
        i = i + 1;
    }
    assert(a@ == a@.subrange(0, i as int));
    assert(b@ == b@.subrange(0, i as int));
    true
}

} // verus!
