//! The request parser: one forward pass of a cursor over the characters of
//! a complete message, one error kind per grammar rule.
use vstd::prelude::*;
use crate::headers::{HeaderSeq, Headers, has_key, key_position, with_entry};
use crate::models::HttpVersion;
use crate::text::{
    chars_of, decimal_text, digits_value, is_digit, lemma_decimal_text, parse_decimal_u32, string_of,
};

verus! {

/// Why a message was refused.
#[derive(Debug)]
pub enum Error {
    /// The method token is not one of the known methods.
    InvalidMethod(String),
    /// The request line is malformed or not terminated.
    FailedToParseHead,
    /// The version does not start with `HTTP/`.
    FailedToParseVersion,
    /// A version number is empty or too large.
    ParseIntError(std::num::ParseIntError),
    /// A header line lacks its `": "` separator or its terminator.
    FailedToParseHeaders,
    /// The blank line before a body is missing.
    FailedToParseBody,
}

/// The kind of a parse error, with the offending method token.
pub enum ParseFailure {
    InvalidMethod(Seq<char>),
    FailedToParseHead,
    FailedToParseVersion,
    ParseIntError,
    FailedToParseHeaders,
    FailedToParseBody,
}

impl Error {
    /// What the error says, as plain values.
    pub open spec fn failure(&self) -> ParseFailure {
        match self {
            Error::InvalidMethod(s) => ParseFailure::InvalidMethod(s@),
            Error::FailedToParseHead => ParseFailure::FailedToParseHead,
            Error::FailedToParseVersion => ParseFailure::FailedToParseVersion,
            Error::ParseIntError(_) => ParseFailure::ParseIntError,
            Error::FailedToParseHeaders => ParseFailure::FailedToParseHeaders,
            Error::FailedToParseBody => ParseFailure::FailedToParseBody,
        }
    }
}

/// The request methods.
#[derive(Debug, Clone, Copy, PartialEq, Eq, Hash)]
pub enum HttpMethod {
    GET,
    HEAD,
    POST,
    PUT,
    DELETE,
    CONNECT,
    OPTIONS,
    TRACE,
    PATCH,
}

impl HttpMethod {
    /// The token that names this method on the wire.
    pub open spec fn token(self) -> Seq<char> {
        match self {
            HttpMethod::GET => seq!['G', 'E', 'T'],
            HttpMethod::HEAD => seq!['H', 'E', 'A', 'D'],
            HttpMethod::POST => seq!['P', 'O', 'S', 'T'],
            HttpMethod::PUT => seq!['P', 'U', 'T'],
            HttpMethod::DELETE => seq!['D', 'E', 'L', 'E', 'T', 'E'],
            HttpMethod::CONNECT => seq!['C', 'O', 'N', 'N', 'E', 'C', 'T'],
            HttpMethod::OPTIONS => seq!['O', 'P', 'T', 'I', 'O', 'N', 'S'],
            HttpMethod::TRACE => seq!['T', 'R', 'A', 'C', 'E'],
            HttpMethod::PATCH => seq!['P', 'A', 'T', 'C', 'H'],
        }
    }

    /// The characters of this method's token.
    pub fn token_chars(self) -> (r: Vec<char>)
        ensures
            r@ == self.token(),
    {
        let r = match self {
            HttpMethod::GET => vec!['G', 'E', 'T'],
            HttpMethod::HEAD => vec!['H', 'E', 'A', 'D'],
            HttpMethod::POST => vec!['P', 'O', 'S', 'T'],
            HttpMethod::PUT => vec!['P', 'U', 'T'],
            HttpMethod::DELETE => vec!['D', 'E', 'L', 'E', 'T', 'E'],
            HttpMethod::CONNECT => vec!['C', 'O', 'N', 'N', 'E', 'C', 'T'],
            HttpMethod::OPTIONS => vec!['O', 'P', 'T', 'I', 'O', 'N', 'S'],
            HttpMethod::TRACE => vec!['T', 'R', 'A', 'C', 'E'],
            HttpMethod::PATCH => vec!['P', 'A', 'T', 'C', 'H'],
        };
        assert(r@ =~= self.token());
        r
    }
}

/// The method that a token names.
pub open spec fn method_of(tok: Seq<char>) -> Option<HttpMethod> {
    if tok == HttpMethod::GET.token() {
        Some(HttpMethod::GET)
    } else if tok == HttpMethod::HEAD.token() {
        Some(HttpMethod::HEAD)
    } else if tok == HttpMethod::POST.token() {
        Some(HttpMethod::POST)
    } else if tok == HttpMethod::PUT.token() {
        Some(HttpMethod::PUT)
    } else if tok == HttpMethod::DELETE.token() {
        Some(HttpMethod::DELETE)
    } else if tok == HttpMethod::CONNECT.token() {
        Some(HttpMethod::CONNECT)
    } else if tok == HttpMethod::OPTIONS.token() {
        Some(HttpMethod::OPTIONS)
    } else if tok == HttpMethod::TRACE.token() {
        Some(HttpMethod::TRACE)
    } else if tok == HttpMethod::PATCH.token() {
        Some(HttpMethod::PATCH)
    } else {
        None
    }
}

/// Every method's token names that method again, so a request line that
/// starts with it is read back as the same method.
pub proof fn lemma_method_token_round_trip(m: HttpMethod)
    ensures
        method_of(m.token()) == Some(m),
{
}

/// Whether `cs[from..to]` equals `lit`.
fn same_chars(cs: &Vec<char>, from: usize, to: usize, lit: &Vec<char>) -> (r: bool)
    requires
        from <= to <= cs@.len(),
    ensures
        r == (cs@.subrange(from as int, to as int) == lit@),
{
    if to - from != lit.len() {
        return false;
    }
    let mut i: usize = 0;
    while i < lit.len()
        invariant
            to - from == lit@.len(),
            from <= to <= cs@.len(),
            i <= lit@.len(),
            forall|j: int| 0 <= j < i ==> cs@[from + j] == lit@[j],
        decreases lit.len() - i,
    {
        if cs[from + i] != lit[i] {
            assert(cs@.subrange(from as int, to as int)[i as int] != lit@[i as int]);
            return false;
        }
        i = i + 1;
    }
    assert(cs@.subrange(from as int, to as int) =~= lit@);
    true
}

/// The method named by `cs[from..to]`.
fn method_in(cs: &Vec<char>, from: usize, to: usize) -> (r: Option<HttpMethod>)
    requires
        from <= to <= cs@.len(),
    ensures
        r == method_of(cs@.subrange(from as int, to as int)),
{
    if same_chars(cs, from, to, &HttpMethod::GET.token_chars()) {
        Some(HttpMethod::GET)
    } else if same_chars(cs, from, to, &HttpMethod::HEAD.token_chars()) {
        Some(HttpMethod::HEAD)
    } else if same_chars(cs, from, to, &HttpMethod::POST.token_chars()) {
        Some(HttpMethod::POST)
    } else if same_chars(cs, from, to, &HttpMethod::PUT.token_chars()) {
        Some(HttpMethod::PUT)
    } else if same_chars(cs, from, to, &HttpMethod::DELETE.token_chars()) {
        Some(HttpMethod::DELETE)
    } else if same_chars(cs, from, to, &HttpMethod::CONNECT.token_chars()) {
        Some(HttpMethod::CONNECT)
    } else if same_chars(cs, from, to, &HttpMethod::OPTIONS.token_chars()) {
        Some(HttpMethod::OPTIONS)
    } else if same_chars(cs, from, to, &HttpMethod::TRACE.token_chars()) {
        Some(HttpMethod::TRACE)
    } else if same_chars(cs, from, to, &HttpMethod::PATCH.token_chars()) {
        Some(HttpMethod::PATCH)
    } else {
        None
    }
}

impl HttpMethod {
    /// The method named by the token `s`.
    pub fn from_str(s: &str) -> (r: Result<HttpMethod, Error>)
        ensures
            match method_of(s@) {
                Some(m) => r == Ok::<HttpMethod, Error>(m),
                None => r matches Err(e) && e.failure() == ParseFailure::InvalidMethod(s@),
            },
    {
        let cs = chars_of(s);
        assert(cs@.subrange(0, cs@.len() as int) =~= s@);
        match method_in(&cs, 0, cs.len()) {
            Some(m) => Ok(m),
            None => Err(Error::InvalidMethod(string_of(&cs, 0, cs.len()))),
        }
    }
}

/// Character classes whose maximal runs the grammar takes.
#[derive(Clone, Copy)]
pub enum CharClass {
    Upper,
    Space,
    NonSpace,
    Digit,
    NameChar,
    NonLineEnd,
}

/// Whether `c` belongs to class `k`.
pub open spec fn in_class(c: char, k: CharClass) -> bool {
    match k {
        CharClass::Upper => 'A' <= c && c <= 'Z',
        CharClass::Space => c == ' ',
        CharClass::NonSpace => c != ' ',
        CharClass::Digit => is_digit(c),
        CharClass::NameChar => c != ':' && c != '\r' && c != '\n',
        CharClass::NonLineEnd => c != '\r' && c != '\n',
    }
}

/// The end of the maximal run of class `k` that starts at `i`.
pub open spec fn run_end(s: Seq<char>, i: int, k: CharClass) -> int
    decreases s.len() - i,
{
    if 0 <= i < s.len() && in_class(s[i], k) {
        run_end(s, i + 1, k)
    } else {
        i
    }
}

/// A run ends within the input, covers only its class, and stops before a
/// character outside it.
pub proof fn lemma_run_end(s: Seq<char>, i: int, k: CharClass)
    requires
        0 <= i <= s.len(),
    ensures
        i <= run_end(s, i, k) <= s.len(),
        forall|j: int| i <= j < run_end(s, i, k) ==> in_class(#[trigger] s[j], k),
        run_end(s, i, k) < s.len() ==> !in_class(s[run_end(s, i, k)], k),
    decreases s.len() - i,
{
    if i < s.len() && in_class(s[i], k) {
        lemma_run_end(s, i + 1, k);
    }
}

/// A run of class `k` from `i` to `e`, followed by the end or by a character
/// outside `k`, is the maximal run at `i`.
pub proof fn lemma_run_over(s: Seq<char>, i: int, e: int, k: CharClass)
    requires
        0 <= i <= e <= s.len(),
        forall|j: int| i <= j < e ==> in_class(#[trigger] s[j], k),
        e == s.len() || !in_class(s[e], k),
    ensures
        run_end(s, i, k) == e,
    decreases e - i,
{
    if i < e {
        lemma_run_over(s, i + 1, e, k);
    }
}

/// The decimal text of `n` at `a`, not followed by a digit, reads as `n`.
pub proof fn lemma_number_at(s: Seq<char>, a: int, n: nat)
    requires
        0 <= a,
        a + decimal_text(n).len() <= s.len(),
        s.subrange(a, a + decimal_text(n).len()) == decimal_text(n),
        a + decimal_text(n).len() == s.len() || !is_digit(s[a + decimal_text(n).len()]),
        n <= u32::MAX,
    ensures
        run_end(s, a, CharClass::Digit) == a + decimal_text(n).len(),
        number_of(s.subrange(a, a + decimal_text(n).len())) == Ok::<u32, ParseFailure>(n as u32),
{
    let t = decimal_text(n);
    lemma_decimal_text(n);
    assert forall|j: int| a <= j < a + t.len() implies in_class(#[trigger] s[j], CharClass::Digit) by {
        assert(s.subrange(a, a + t.len())[j - a] == s[j]);
    }
    lemma_run_over(s, a, a + t.len(), CharClass::Digit);
}

/// Whether `lit` occurs in `s` at position `i`.
pub open spec fn matches_at(s: Seq<char>, i: int, lit: Seq<char>) -> bool {
    0 <= i && i + lit.len() <= s.len() && s.subrange(i, i + lit.len()) == lit
}

/// The line terminator.
pub open spec fn crlf() -> Seq<char> {
    seq!['\r', '\n']
}

/// What a version starts with.
pub open spec fn version_prefix() -> Seq<char> {
    seq!['H', 'T', 'T', 'P', '/']
}

/// What separates a header's name from its value.
pub open spec fn header_separator() -> Seq<char> {
    seq![':', ' ']
}

/// A run of digits as a `u32`, or the failure to read one.
pub open spec fn number_of(d: Seq<char>) -> Result<u32, ParseFailure> {
    if d.len() == 0 || digits_value(d) > u32::MAX {
        Err(ParseFailure::ParseIntError)
    } else {
        Ok(digits_value(d) as u32)
    }
}

/// The version at `i` and the position after it: `HTTP/`, the major
/// number, and an optional `.` with the minor number (zero when absent).
pub open spec fn version_at(s: Seq<char>, i: int) -> Result<(HttpVersion, int), ParseFailure> {
    if !matches_at(s, i, version_prefix()) {
        Err(ParseFailure::FailedToParseVersion)
    } else {
        let a = i + 5;
        let b = run_end(s, a, CharClass::Digit);
        match number_of(s.subrange(a, b)) {
            Err(f) => Err(f),
            Ok(major) => if b < s.len() && s[b] == '.' {
                let c = run_end(s, b + 1, CharClass::Digit);
                match number_of(s.subrange(b + 1, c)) {
                    Err(f) => Err(f),
                    Ok(minor) => Ok((HttpVersion { major, minor }, c)),
                }
            } else {
                Ok((HttpVersion { major, minor: 0 }, b))
            },
        }
    }
}

/// The header line at `i`: its name, its value and the position after its
/// terminator.
pub open spec fn header_at(s: Seq<char>, i: int) -> Option<(Seq<char>, Seq<char>, int)> {
    let b = run_end(s, i, CharClass::NameChar);
    if !matches_at(s, b, header_separator()) {
        None
    } else {
        let c = run_end(s, b + 2, CharClass::NonLineEnd);
        if !matches_at(s, c, crlf()) {
            None
        } else {
            Some((s.subrange(i, b), s.subrange(b + 2, c), c + 2))
        }
    }
}

/// A header line ends after it starts.
pub proof fn lemma_header_at_advances(s: Seq<char>, i: int)
    requires
        0 <= i <= s.len(),
    ensures
        header_at(s, i) matches Some((k, v, j)) ==> i < j <= s.len(),
{
    lemma_run_end(s, i, CharClass::NameChar);
    let b = run_end(s, i, CharClass::NameChar);
    if matches_at(s, b, header_separator()) {
        lemma_run_end(s, b + 2, CharClass::NonLineEnd);
    }
}

/// The header lines from `i` on, set one by one into `acc`, and the position
/// where they stop: at the end of the input or at a line terminator.
pub open spec fn headers_at(s: Seq<char>, i: int, acc: HeaderSeq) -> Result<
    (HeaderSeq, int),
    ParseFailure,
>
    decreases s.len() - i,
    via headers_at_decreases
{
    if 0 <= i < s.len() && s[i] != '\r' && s[i] != '\n' {
        match header_at(s, i) {
            None => Err(ParseFailure::FailedToParseHeaders),
            Some((k, v, j)) => headers_at(s, j, with_entry(acc, k, v)),
        }
    } else {
        Ok((acc, i))
    }
}

#[via_fn]
proof fn headers_at_decreases(s: Seq<char>, i: int, acc: HeaderSeq) {
    if 0 <= i < s.len() {
        lemma_header_at_advances(s, i);
    }
}

/// The body at `i`: empty at the end of the input, else everything after a
/// line terminator.
pub open spec fn body_at(s: Seq<char>, i: int) -> Result<Seq<char>, ParseFailure> {
    if i >= s.len() {
        Ok(Seq::empty())
    } else if matches_at(s, i, crlf()) {
        Ok(s.subrange(i + 2, s.len() as int))
    } else {
        Err(ParseFailure::FailedToParseBody)
    }
}

/// Header lines fail only as headers.
pub proof fn lemma_headers_at_failure(s: Seq<char>, i: int, acc: HeaderSeq)
    requires
        0 <= i <= s.len(),
    ensures
        headers_at(s, i, acc) matches Err(f) ==> f == ParseFailure::FailedToParseHeaders,
    decreases s.len() - i,
{
    if 0 <= i < s.len() && s[i] != '\r' && s[i] != '\n' {
        lemma_header_at_advances(s, i);
        if let Some((k, v, j)) = header_at(s, i) {
            lemma_headers_at_failure(s, j, with_entry(acc, k, v));
        }
    }
}

/// No header name holds a carriage return or a line feed.
pub open spec fn names_single_line(es: HeaderSeq) -> bool {
    forall|i: int, j: int|
        0 <= i < es.len() && 0 <= j < es[i].0.len() ==> #[trigger] es[i].0[j] != '\r' && es[i].0[j]
            != '\n'
}

/// Header lines read from `i` on add only names without a line terminator.
pub proof fn lemma_headers_at_single_line(s: Seq<char>, i: int, acc: HeaderSeq)
    requires
        0 <= i <= s.len(),
        names_single_line(acc),
    ensures
        headers_at(s, i, acc) matches Ok((hs, _)) ==> names_single_line(hs),
    decreases s.len() - i,
{
    if 0 <= i < s.len() && s[i] != '\r' && s[i] != '\n' {
        lemma_header_at_advances(s, i);
        if let Some((k, v, j)) = header_at(s, i) {
            lemma_run_end(s, i, CharClass::NameChar);
            let b = run_end(s, i, CharClass::NameChar);
            assert forall|x: int| 0 <= x < k.len() implies #[trigger] k[x] != '\r' && k[x] != '\n' by {
                assert(k[x] == s[i + x]);
                assert(in_class(s[i + x], CharClass::NameChar));
            }
            let next = with_entry(acc, k, v);
            assert forall|a: int, x: int| 0 <= a < next.len() && 0 <= x < next[a].0.len() implies
                #[trigger] next[a].0[x] != '\r' && next[a].0[x] != '\n' by {
                if has_key(acc, k) {
                    if a != key_position(acc, k) {
                        assert(next[a] == acc[a]);
                    }
                } else if a < acc.len() {
                    assert(next[a] == acc[a]);
                }
            }
            lemma_headers_at_single_line(s, j, next);
        }
    }
}

/// A request as plain values.
pub struct RequestView {
    pub method: HttpMethod,
    pub path: Seq<char>,
    pub version: HttpVersion,
    pub headers: HeaderSeq,
    pub body: Seq<char>,
}

/// The outcome of parsing the message `s`.
pub open spec fn parse_spec(s: Seq<char>) -> Result<RequestView, ParseFailure> {
    let m = run_end(s, 0, CharClass::Upper);
    let tok = s.subrange(0, m);
    if method_of(tok) is None {
        Err(ParseFailure::InvalidMethod(tok))
    } else if !(m < s.len() && s[m] == ' ') {
        Err(ParseFailure::FailedToParseHead)
    } else {
        let p = run_end(s, m, CharClass::Space);
        let q = run_end(s, p, CharClass::NonSpace);
        match version_at(s, run_end(s, q, CharClass::Space)) {
            Err(f) => Err(f),
            Ok((version, h)) => if !matches_at(s, h, crlf()) {
                Err(ParseFailure::FailedToParseHead)
            } else {
                match headers_at(s, h + 2, Seq::empty()) {
                    Err(f) => Err(f),
                    Ok((headers, b)) => match body_at(s, b) {
                        Err(f) => Err(f),
                        Ok(body) => Ok(
                            RequestView {
                                method: method_of(tok)->0,
                                path: s.subrange(p, q),
                                version,
                                headers,
                                body,
                            },
                        ),
                    },
                }
            },
        }
    }
}

/// Whether `c` belongs to class `k`.
fn class_has(c: char, k: CharClass) -> (r: bool)
    ensures
        r == in_class(c, k),
{
    match k {
        CharClass::Upper => 'A' <= c && c <= 'Z',
        CharClass::Space => c == ' ',
        CharClass::NonSpace => c != ' ',
        CharClass::Digit => '0' <= c && c <= '9',
        CharClass::NameChar => c != ':' && c != '\r' && c != '\n',
        CharClass::NonLineEnd => c != '\r' && c != '\n',
    }
}

/// A request parsed from a complete message.
#[derive(Debug, Clone, PartialEq, Eq)]
pub struct HttpRequest {
    method: HttpMethod,
    path: String,
    http_version: HttpVersion,
    headers: Headers,
    body: String,
}

impl View for HttpRequest {
    type V = RequestView;

    closed spec fn view(&self) -> RequestView {
        RequestView {
            method: self.method,
            path: self.path@,
            version: self.http_version,
            headers: self.headers@,
            body: self.body@,
        }
    }
}

/// The outcome of a parse as plain values.
pub open spec fn outcome(r: Result<HttpRequest, Error>) -> Result<RequestView, ParseFailure> {
    match r {
        Ok(q) => Ok(q@),
        Err(e) => Err(e.failure()),
    }
}

/// A cursor over the characters of one message.
pub(crate) struct RequestParser {
    pub(crate) chars: Vec<char>,
    pub(crate) pos: usize,
}

impl RequestParser {
    /// A cursor at the start of `input`.
    pub(crate) fn from_str(input: &str) -> (r: RequestParser)
        ensures
            r.chars@ == input@,
            r.pos == 0,
    {
        RequestParser { chars: chars_of(input), pos: 0 }
    }

    /// Whether the next character is `c`.
    fn peek_is(&self, c: char) -> (r: bool)
        ensures
            r == (self.pos < self.chars@.len() && self.chars@[self.pos as int] == c),
    {
        self.pos < self.chars.len() && self.chars[self.pos] == c
    }

    /// Moves past the maximal run of class `k`.
    fn skip_run(&mut self, k: CharClass)
        requires
            old(self).pos <= old(self).chars@.len(),
        ensures
            final(self).chars@ == old(self).chars@,
            final(self).pos == run_end(old(self).chars@, old(self).pos as int, k),
    {
        let ghost s = self.chars@;
        while self.pos < self.chars.len() && class_has(self.chars[self.pos], k)
            invariant
                self.chars@ == s,
                s == old(self).chars@,
                self.pos <= s.len(),
                run_end(s, self.pos as int, k) == run_end(s, old(self).pos as int, k),
            decreases s.len() - self.pos,
        {
            self.pos = self.pos + 1;
        }
    }

    /// Moves past spaces.
    fn skip_spaces(&mut self)
        requires
            old(self).pos <= old(self).chars@.len(),
        ensures
            final(self).chars@ == old(self).chars@,
            final(self).pos == run_end(old(self).chars@, old(self).pos as int, CharClass::Space),
    {
        self.skip_run(CharClass::Space);
    }

    /// Moves past `lit` where it comes next; else stays.
    fn match_str(&mut self, lit: &Vec<char>) -> (r: bool)
        requires
            old(self).pos <= old(self).chars@.len(),
        ensures
            final(self).chars@ == old(self).chars@,
            r == matches_at(old(self).chars@, old(self).pos as int, lit@),
            r ==> final(self).pos == old(self).pos + lit@.len(),
            !r ==> final(self).pos == old(self).pos,
    {
        if lit.len() > self.chars.len() - self.pos {
            return false;
        }
        let end = self.pos + lit.len();
        if same_chars(&self.chars, self.pos, end, lit) {
            self.pos = end;
            true
        } else {
            false
        }
    }

    /// The method token, then the spaces after it.
    fn parse_method(&mut self) -> (r: Result<HttpMethod, Error>)
        requires
            old(self).pos <= old(self).chars@.len(),
        ensures
            final(self).chars@ == old(self).chars@,
            final(self).pos <= final(self).chars@.len(),
            ({
                let s = old(self).chars@;
                let m = run_end(s, old(self).pos as int, CharClass::Upper);
                let tok = s.subrange(old(self).pos as int, m);
                match method_of(tok) {
                    None => r matches Err(e) && e.failure() == ParseFailure::InvalidMethod(tok),
                    Some(x) => if m < s.len() && s[m] == ' ' {
                        r == Ok::<HttpMethod, Error>(x) && final(self).pos == run_end(
                            s,
                            m,
                            CharClass::Space,
                        )
                    } else {
                        r matches Err(e) && e.failure() == ParseFailure::FailedToParseHead
                    },
                }
            }),
    {
        let start = self.pos;
        self.skip_run(CharClass::Upper);
        proof {
            lemma_run_end(self.chars@, start as int, CharClass::Upper);
        }
        let end = self.pos;
        match method_in(&self.chars, start, end) {
            None => Err(Error::InvalidMethod(string_of(&self.chars, start, end))),
            Some(m) => {
                if !self.peek_is(' ') {
                    return Err(Error::FailedToParseHead);
                }
                self.skip_spaces();
                proof {
                    lemma_run_end(self.chars@, end as int, CharClass::Space);
                }
                Ok(m)
            },
        }
    }

    /// The route: every character up to the next space, then the spaces.
    fn parse_path(&mut self) -> (r: String)
        requires
            old(self).pos <= old(self).chars@.len(),
        ensures
            final(self).chars@ == old(self).chars@,
            ({
                let s = old(self).chars@;
                let q = run_end(s, old(self).pos as int, CharClass::NonSpace);
                &&& r@ == s.subrange(old(self).pos as int, q)
                &&& final(self).pos == run_end(s, q, CharClass::Space)
            }),
            final(self).pos <= final(self).chars@.len(),
    {
        let start = self.pos;
        self.skip_run(CharClass::NonSpace);
        proof {
            lemma_run_end(self.chars@, start as int, CharClass::NonSpace);
        }
        let path = string_of(&self.chars, start, self.pos);
        let ghost q = self.pos;
        self.skip_spaces();
        proof {
            lemma_run_end(self.chars@, q as int, CharClass::Space);
        }
        path
    }

    /// A maximal run of digits read as a `u32`.
    pub(crate) fn parse_number(&mut self) -> (r: Result<u32, Error>)
        requires
            old(self).pos <= old(self).chars@.len(),
        ensures
            final(self).chars@ == old(self).chars@,
            final(self).pos <= final(self).chars@.len(),
            ({
                let s = old(self).chars@;
                let e = run_end(s, old(self).pos as int, CharClass::Digit);
                match number_of(s.subrange(old(self).pos as int, e)) {
                    Ok(n) => r == Ok::<u32, Error>(n) && final(self).pos == e,
                    Err(f) => r matches Err(x) && x.failure() == f,
                }
            }),
    {
        let start = self.pos;
        self.skip_run(CharClass::Digit);
        proof {
            lemma_run_end(self.chars@, start as int, CharClass::Digit);
        }
        let digits = string_of(&self.chars, start, self.pos);
        match parse_decimal_u32(digits.as_str()) {
            Ok(n) => Ok(n),
            Err(e) => Err(Error::ParseIntError(e)),
        }
    }

    /// The version: `HTTP/`, the major number and an optional `.minor`.
    pub(crate) fn parse_version(&mut self) -> (r: Result<HttpVersion, Error>)
        requires
            old(self).pos <= old(self).chars@.len(),
        ensures
            final(self).chars@ == old(self).chars@,
            final(self).pos <= final(self).chars@.len(),
            match version_at(old(self).chars@, old(self).pos as int) {
                Ok((v, j)) => r == Ok::<HttpVersion, Error>(v) && final(self).pos == j,
                Err(f) => r matches Err(e) && e.failure() == f,
            },
    {
        let ghost s = self.chars@;
        let prefix = vec!['H', 'T', 'T', 'P', '/'];
        assert(prefix@ =~= version_prefix());
        if !self.match_str(&prefix) {
            return Err(Error::FailedToParseVersion);
        }
        let major = match self.parse_number() {
            Ok(n) => n,
            Err(e) => return Err(e),
        };
        if self.pos < self.chars.len() && self.chars[self.pos] == '.' {
            self.pos = self.pos + 1;
            let minor = match self.parse_number() {
                Ok(n) => n,
                Err(e) => return Err(e),
            };
            Ok(HttpVersion { major, minor })
        } else {
            Ok(HttpVersion { major, minor: 0 })
        }
    }

    /// One header line: name, `": "`, value, terminator.
    fn parse_header(&mut self) -> (r: Result<(String, String), Error>)
        requires
            old(self).pos <= old(self).chars@.len(),
        ensures
            final(self).chars@ == old(self).chars@,
            final(self).pos <= final(self).chars@.len(),
            match header_at(old(self).chars@, old(self).pos as int) {
                None => r matches Err(e) && e.failure() == ParseFailure::FailedToParseHeaders,
                Some((k, v, j)) => r matches Ok((a, b)) && a@ == k && b@ == v && final(self).pos
                    == j,
            },
    {
        let start = self.pos;
        self.skip_run(CharClass::NameChar);
        proof {
            lemma_run_end(self.chars@, start as int, CharClass::NameChar);
        }
        let key_end = self.pos;
        let separator = vec![':', ' '];
        assert(separator@ =~= header_separator());
        if !self.match_str(&separator) {
            return Err(Error::FailedToParseHeaders);
        }
        let value_start = self.pos;
        self.skip_run(CharClass::NonLineEnd);
        proof {
            lemma_run_end(self.chars@, value_start as int, CharClass::NonLineEnd);
        }
        let value_end = self.pos;
        let terminator = vec!['\r', '\n'];
        assert(terminator@ =~= crlf());
        if !self.match_str(&terminator) {
            return Err(Error::FailedToParseHeaders);
        }
        Ok((string_of(&self.chars, start, key_end), string_of(&self.chars, value_start, value_end)))
    }

    /// Whether a header line comes next rather than a terminator or the end.
    fn at_header_line(&self) -> (r: bool)
        ensures
            r == (self.pos < self.chars@.len() && self.chars@[self.pos as int] != '\r'
                && self.chars@[self.pos as int] != '\n'),
    {
        self.pos < self.chars.len() && self.chars[self.pos] != '\r' && self.chars[self.pos] != '\n'
    }

    /// Header lines up to a terminator or the end of the input.
    fn parse_headers(&mut self) -> (r: Result<Headers, Error>)
        requires
            old(self).pos <= old(self).chars@.len(),
        ensures
            final(self).chars@ == old(self).chars@,
            final(self).pos <= final(self).chars@.len(),
            match headers_at(old(self).chars@, old(self).pos as int, Seq::empty()) {
                Ok((hs, j)) => r matches Ok(h) && h@ == hs && h.wf() && final(self).pos == j,
                Err(f) => r matches Err(e) && e.failure() == f,
            },
    {
        let ghost s = self.chars@;
        let mut headers = Headers::new();
        while self.at_header_line()
            invariant
                self.chars@ == s,
                s == old(self).chars@,
                self.pos <= s.len(),
                headers.wf(),
                headers_at(s, self.pos as int, headers@) == headers_at(
                    s,
                    old(self).pos as int,
                    Seq::empty(),
                ),
            decreases s.len() - self.pos,
        {
            let ghost before = self.pos;
            proof {
                lemma_header_at_advances(s, before as int);
            }
            match self.parse_header() {
                Ok((key, value)) => {
                    headers.insert(key, value);
                },
                Err(e) => {
                    return Err(e);
                },
            }
        }
        Ok(headers)
    }

    /// The body: empty at the end of the input, else what follows a
    /// terminator.
    fn parse_body(&mut self) -> (r: Result<String, Error>)
        requires
            old(self).pos <= old(self).chars@.len(),
        ensures
            match body_at(old(self).chars@, old(self).pos as int) {
                Ok(b) => r matches Ok(x) && x@ == b,
                Err(f) => r matches Err(e) && e.failure() == f,
            },
    {
        if self.pos >= self.chars.len() {
            return Ok(String::new());
        }
        let terminator = vec!['\r', '\n'];
        assert(terminator@ =~= crlf());
        if !self.match_str(&terminator) {
            return Err(Error::FailedToParseBody);
        }
        Ok(string_of(&self.chars, self.pos, self.chars.len()))
    }

    /// The whole message: request line, headers, body.
    fn parse_request(&mut self) -> (r: Result<HttpRequest, Error>)
        requires
            old(self).pos == 0,
        ensures
            outcome(r) == parse_spec(old(self).chars@),
            r matches Ok(q) ==> q.wf(),
    {
        let method = match self.parse_method() {
            Ok(m) => m,
            Err(e) => return Err(e),
        };
        let path = self.parse_path();
        let http_version = match self.parse_version() {
            Ok(v) => v,
            Err(e) => return Err(e),
        };
        let terminator = vec!['\r', '\n'];
        assert(terminator@ =~= crlf());
        if !self.match_str(&terminator) {
            return Err(Error::FailedToParseHead);
        }
        let headers = match self.parse_headers() {
            Ok(h) => h,
            Err(e) => return Err(e),
        };
        let body = match self.parse_body() {
            Ok(b) => b,
            Err(e) => return Err(e),
        };
        Ok(HttpRequest { method, path, http_version, headers, body })
    }
}

/// The headers of a parsed request never hold a line terminator inside a
/// name.
pub proof fn lemma_parsed_names_single_line(s: Seq<char>)
    ensures
        parse_spec(s) matches Ok(q) ==> names_single_line(q.headers),
{
    let m = run_end(s, 0, CharClass::Upper);
    lemma_run_end(s, 0, CharClass::Upper);
    if method_of(s.subrange(0, m)) is Some && m < s.len() && s[m] == ' ' {
        let p = run_end(s, m, CharClass::Space);
        lemma_run_end(s, m, CharClass::Space);
        let q = run_end(s, p, CharClass::NonSpace);
        lemma_run_end(s, p, CharClass::NonSpace);
        let v0 = run_end(s, q, CharClass::Space);
        lemma_run_end(s, q, CharClass::Space);
        if let Ok((version, h)) = version_at(s, v0) {
            if matches_at(s, h, crlf()) {
                lemma_headers_at_single_line(s, h + 2, Seq::empty());
            }
        }
    }
}

/// A request line that starts with a method's token and a space is read
/// with that method: its method is never refused and a parsed request
/// carries it.
pub proof fn lemma_request_line_method(m: HttpMethod, rest: Seq<char>)
    requires
        rest.len() > 0,
        rest[0] == ' ',
    ensures
        run_end(m.token() + rest, 0, CharClass::Upper) == m.token().len(),
        !(parse_spec(m.token() + rest) matches Err(ParseFailure::InvalidMethod(_))),
        parse_spec(m.token() + rest) matches Ok(q) ==> q.method == m,
{
    let s = m.token() + rest;
    let t = m.token();
    assert forall|j: int| 0 <= j < t.len() implies in_class(#[trigger] s[j], CharClass::Upper) by {
        assert(s[j] == t[j]);
        match m {
            HttpMethod::GET => {},
            HttpMethod::HEAD => {},
            HttpMethod::POST => {},
            HttpMethod::PUT => {},
            HttpMethod::DELETE => {},
            HttpMethod::CONNECT => {},
            HttpMethod::OPTIONS => {},
            HttpMethod::TRACE => {},
            HttpMethod::PATCH => {},
        }
    }
    assert(s[t.len() as int] == ' ');
    lemma_run_over(s, 0, t.len() as int, CharClass::Upper);
    assert(s.subrange(0, t.len() as int) =~= t);
    lemma_method_token_round_trip(m);
    let p = run_end(s, t.len() as int, CharClass::Space);
    lemma_run_end(s, t.len() as int, CharClass::Space);
    let q = run_end(s, p, CharClass::NonSpace);
    lemma_run_end(s, p, CharClass::NonSpace);
    let v0 = run_end(s, q, CharClass::Space);
    lemma_run_end(s, q, CharClass::Space);
    if let Ok((version, h)) = version_at(s, v0) {
        if matches_at(s, h, crlf()) {
            lemma_headers_at_failure(s, h + 2, Seq::empty());
        }
    }
}

/// Parsing is a function of the message alone: two parses of the same
/// message give equal outcomes.
pub proof fn lemma_parse_deterministic(
    s: Seq<char>,
    a: Result<HttpRequest, Error>,
    b: Result<HttpRequest, Error>,
)
    requires
        outcome(a) == parse_spec(s),
        outcome(b) == parse_spec(s),
    ensures
        outcome(a) == outcome(b),
        a is Ok <==> b is Ok,
        a matches Ok(x) ==> (b matches Ok(y) && x@ == y@),
{
}

impl HttpRequest {
    /// Well-formed: header names are unique.
    pub closed spec fn wf(&self) -> bool {
        self.headers.wf()
    }

    /// Parses a complete message.
    pub fn new(input: &str) -> (r: Result<HttpRequest, Error>)
        ensures
            outcome(r) == parse_spec(input@),
            r matches Ok(q) ==> q.wf(),
    {
        let mut parser = RequestParser::from_str(input);
        parser.parse_request()
    }

    /// Parses a complete message; the same as `new`.
    pub fn from_str(s: &str) -> (r: Result<HttpRequest, Error>)
        ensures
            outcome(r) == parse_spec(s@),
            r matches Ok(q) ==> q.wf(),
    {
        HttpRequest::new(s)
    }

    /// The method.
    pub fn method(&self) -> (r: HttpMethod)
        ensures
            r == self@.method,
    {
        self.method
    }

    /// The route, verbatim.
    pub fn path(&self) -> (r: &String)
        ensures
            r@ == self@.path,
    {
        &self.path
    }

    /// The protocol version.
    pub fn version(&self) -> (r: HttpVersion)
        ensures
            r == self@.version,
    {
        self.http_version
    }

    /// The headers.
    pub fn headers(&self) -> (r: &Headers)
        requires
            self.wf(),
        ensures
            r@ == self@.headers,
            r.wf(),
    {
        &self.headers
    }

    /// The body.
    pub fn body(&self) -> (r: &String)
        ensures
            r@ == self@.body,
    {
        &self.body
    }
}

} // verus!
