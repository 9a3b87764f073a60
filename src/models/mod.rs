//! The message model shared by requests and responses.
use vstd::prelude::*;
use crate::http::{
    Error, ParseFailure, RequestParser, lemma_number_at, version_at, version_prefix,
};
use crate::text::{decimal_text, is_digit, lemma_decimal_text, push_decimal, string_of};

pub use request::ParseRequestErr;

pub mod request;
pub mod response;

verus! {

/// A protocol version: `HTTP/<major>[.<minor>]`.
#[derive(Debug, Clone, Copy, PartialEq, Eq, Hash)]
pub struct HttpVersion {
    pub major: u32,
    pub minor: u32,
}

/// The text of a version: the minor number is left out when it is zero.
pub open spec fn version_text(v: HttpVersion) -> Seq<char> {
    let head = seq!['H', 'T', 'T', 'P', '/'] + decimal_text(v.major as nat);
    if v.minor == 0 {
        head
    } else {
        head.push('.') + decimal_text(v.minor as nat)
    }
}

/// The text of a version reads back as that version, ending where the text
/// ends, whatever follows it that is neither a digit nor a dot. So a version
/// written out parses to itself.
pub proof fn lemma_version_text_reads_back(v: HttpVersion, rest: Seq<char>)
    requires
        rest.len() == 0 || (!is_digit(rest[0]) && rest[0] != '.'),
    ensures
        version_at(version_text(v) + rest, 0) == Ok::<(HttpVersion, int), ParseFailure>(
            (v, version_text(v).len() as int),
        ),
{
    let s = version_text(v) + rest;
    let mt = decimal_text(v.major as nat);
    let b: int = 5 + mt.len() as int;
    lemma_decimal_text(v.major as nat);
    lemma_decimal_text(v.minor as nat);
    assert(s.subrange(0, 5) =~= version_prefix());
    assert(s.subrange(5, b) =~= mt);
    if v.minor == 0 {
        if rest.len() > 0 {
            assert(s[b] == rest[0]);
        }
        lemma_number_at(s, 5, v.major as nat);
    } else {
        let nt = decimal_text(v.minor as nat);
        let c: int = b + 1 + nt.len() as int;
        assert(s[b] == '.');
        lemma_number_at(s, 5, v.major as nat);
        assert(s.subrange(b + 1, c) =~= nt);
        if rest.len() > 0 {
            assert(s[c] == rest[0]);
        }
        lemma_number_at(s, b + 1, v.minor as nat);
    }
}

impl HttpVersion {
    /// The version `major.minor`.
    pub fn new(major: u32, minor: u32) -> (r: HttpVersion)
        ensures
            r.major == major,
            r.minor == minor,
    {
        HttpVersion { major, minor }
    }

    /// Parses a whole version token such as `HTTP/1.1` or `HTTP/1`.
    pub fn from_str(s: &str) -> (r: Result<HttpVersion, ParseRequestErr>)
        ensures
            match version_at(s@, 0) {
                Ok((v, j)) => if j == s@.len() {
                    r == Ok::<HttpVersion, ParseRequestErr>(v)
                } else {
                    r matches Err(ParseRequestErr::InvalidVersion(t)) && t@ == s@
                },
                Err(ParseFailure::ParseIntError) => r matches Err(ParseRequestErr::ParseIntError(_)),
                Err(_) => r matches Err(ParseRequestErr::InvalidVersion(t)) && t@ == s@,
            },
    {
        let mut parser = RequestParser::from_str(s);
        match parser.parse_version() {
            Ok(v) => {
                if parser.pos == parser.chars.len() {
                    Ok(v)
                } else {
                    Err(ParseRequestErr::InvalidVersion(string_of(&parser.chars, 0, parser.chars.len())))
                }
            },
            Err(Error::ParseIntError(e)) => Err(ParseRequestErr::ParseIntError(e)),
            Err(_) => Err(ParseRequestErr::InvalidVersion(string_of(&parser.chars, 0, parser.chars.len()))),
        }
    }

    /// Appends the text of this version to `out`.
    pub fn write_to(&self, out: &mut Vec<char>)
        ensures
            final(out)@ == old(out)@ + version_text(*self),
    {
        out.push('H');
        out.push('T');
        out.push('T');
        out.push('P');
        out.push('/');
        push_decimal(out, self.major);
        if self.minor != 0 {
            out.push('.');
            push_decimal(out, self.minor);
        }
        assert(out@ =~= old(out)@ + version_text(*self));
    }

    /// The text of this version, such as `HTTP/1.1` or `HTTP/2`.
    pub fn to_string(&self) -> (r: String)
        ensures
            r@ == version_text(*self),
    {
        let mut out: Vec<char> = Vec::new();
        self.write_to(&mut out);
        assert(out@ =~= version_text(*self));
        string_of(&out, 0, out.len())
    }
}

} // verus!
