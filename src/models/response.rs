//! Responses: the status table and the wire format.
use vstd::prelude::*;
use crate::headers::{HeaderSeq, Headers};
use crate::http::{
    CharClass, ParseFailure, RequestParser, crlf, header_separator, lemma_number_at, number_of,
    run_end, version_at,
};
use crate::models::{HttpVersion, lemma_version_text_reads_back, version_text};
use crate::text::{chars_of, decimal_text, lemma_decimal_text, push_decimal, string_of};

verus! {

/// The standard status codes.
#[derive(Debug, Clone, Copy, PartialEq, Eq, Hash)]
pub enum HttpStatusCode {
    Continue,
    SwitchingProtocols,
    Processing,
    EarlyHints,
    OK,
    Created,
    Accepted,
    NonAuthoritativeInformation,
    NoContent,
    ResetContent,
    PartialContent,
    MultiStatus,
    AlreadyReported,
    ImUsed,
    MultipleChoices,
    MovedPermanently,
    Found,
    SeeOther,
    NotModified,
    UseProxy,
    Unused,
    TemporaryRedirect,
    PermanentRedirect,
    BadRequest,
    Unauthorized,
    PaymentRequired,
    Forbidden,
    NotFound,
    MethodNotAllowed,
    NotAcceptable,
    ProxyAuthenticationRequired,
    RequestTimeout,
    Conflict,
    Gone,
    LengthRequired,
    PreconditionFailed,
    ContentTooLarge,
    UriTooLong,
    UnsupportedMediaType,
    RangeNotSatisfiable,
    ExpectationFailed,
    ImATeapot,
    MisdirectedRequest,
    UnprocessableContent,
    Locked,
    FailedDependency,
    TooEarly,
    UpgradeRequired,
    PreconditionRequired,
    TooManyRequests,
    RequestHeaderFieldsTooLarge,
    UnavailableForLegalReasons,
    InternalServerError,
    NotImplemented,
    BadGateway,
    ServiceUnavailable,
    GatewayTimeout,
    HTTPVersionNotSupported,
    VariantAlsoNegotiates,
    InsufficientStorage,
    LoopDetected,
    NotExtended,
    NetworkAuthenticationRequired,
}

/// The status whose number is `n`.
pub open spec fn status_of_code(n: int) -> Option<HttpStatusCode> {
        if n == 100 {
            Some(HttpStatusCode::Continue)
        } else if n == 101 {
            Some(HttpStatusCode::SwitchingProtocols)
        } else if n == 102 {
            Some(HttpStatusCode::Processing)
        } else if n == 103 {
            Some(HttpStatusCode::EarlyHints)
        } else if n == 200 {
            Some(HttpStatusCode::OK)
        } else if n == 201 {
            Some(HttpStatusCode::Created)
        } else if n == 202 {
            Some(HttpStatusCode::Accepted)
        } else if n == 203 {
            Some(HttpStatusCode::NonAuthoritativeInformation)
        } else if n == 204 {
            Some(HttpStatusCode::NoContent)
        } else if n == 205 {
            Some(HttpStatusCode::ResetContent)
        } else if n == 206 {
            Some(HttpStatusCode::PartialContent)
        } else if n == 207 {
            Some(HttpStatusCode::MultiStatus)
        } else if n == 208 {
            Some(HttpStatusCode::AlreadyReported)
        } else if n == 226 {
            Some(HttpStatusCode::ImUsed)
        } else if n == 300 {
            Some(HttpStatusCode::MultipleChoices)
        } else if n == 301 {
            Some(HttpStatusCode::MovedPermanently)
        } else if n == 302 {
            Some(HttpStatusCode::Found)
        } else if n == 303 {
            Some(HttpStatusCode::SeeOther)
        } else if n == 304 {
            Some(HttpStatusCode::NotModified)
        } else if n == 305 {
            Some(HttpStatusCode::UseProxy)
        } else if n == 306 {
            Some(HttpStatusCode::Unused)
        } else if n == 307 {
            Some(HttpStatusCode::TemporaryRedirect)
        } else if n == 308 {
            Some(HttpStatusCode::PermanentRedirect)
        } else if n == 400 {
            Some(HttpStatusCode::BadRequest)
        } else if n == 401 {
            Some(HttpStatusCode::Unauthorized)
        } else if n == 402 {
            Some(HttpStatusCode::PaymentRequired)
        } else if n == 403 {
            Some(HttpStatusCode::Forbidden)
        } else if n == 404 {
            Some(HttpStatusCode::NotFound)
        } else if n == 405 {
            Some(HttpStatusCode::MethodNotAllowed)
        } else if n == 406 {
            Some(HttpStatusCode::NotAcceptable)
        } else if n == 407 {
            Some(HttpStatusCode::ProxyAuthenticationRequired)
        } else if n == 408 {
            Some(HttpStatusCode::RequestTimeout)
        } else if n == 409 {
            Some(HttpStatusCode::Conflict)
        } else if n == 410 {
            Some(HttpStatusCode::Gone)
        } else if n == 411 {
            Some(HttpStatusCode::LengthRequired)
        } else if n == 412 {
            Some(HttpStatusCode::PreconditionFailed)
        } else if n == 413 {
            Some(HttpStatusCode::ContentTooLarge)
        } else if n == 414 {
            Some(HttpStatusCode::UriTooLong)
        } else if n == 415 {
            Some(HttpStatusCode::UnsupportedMediaType)
        } else if n == 416 {
            Some(HttpStatusCode::RangeNotSatisfiable)
        } else if n == 417 {
            Some(HttpStatusCode::ExpectationFailed)
        } else if n == 418 {
            Some(HttpStatusCode::ImATeapot)
        } else if n == 421 {
            Some(HttpStatusCode::MisdirectedRequest)
        } else if n == 422 {
            Some(HttpStatusCode::UnprocessableContent)
        } else if n == 423 {
            Some(HttpStatusCode::Locked)
        } else if n == 424 {
            Some(HttpStatusCode::FailedDependency)
        } else if n == 425 {
            Some(HttpStatusCode::TooEarly)
        } else if n == 426 {
            Some(HttpStatusCode::UpgradeRequired)
        } else if n == 428 {
            Some(HttpStatusCode::PreconditionRequired)
        } else if n == 429 {
            Some(HttpStatusCode::TooManyRequests)
        } else if n == 431 {
            Some(HttpStatusCode::RequestHeaderFieldsTooLarge)
        } else if n == 451 {
            Some(HttpStatusCode::UnavailableForLegalReasons)
        } else if n == 500 {
            Some(HttpStatusCode::InternalServerError)
        } else if n == 501 {
            Some(HttpStatusCode::NotImplemented)
        } else if n == 502 {
            Some(HttpStatusCode::BadGateway)
        } else if n == 503 {
            Some(HttpStatusCode::ServiceUnavailable)
        } else if n == 504 {
            Some(HttpStatusCode::GatewayTimeout)
        } else if n == 505 {
            Some(HttpStatusCode::HTTPVersionNotSupported)
        } else if n == 506 {
            Some(HttpStatusCode::VariantAlsoNegotiates)
        } else if n == 507 {
            Some(HttpStatusCode::InsufficientStorage)
        } else if n == 508 {
            Some(HttpStatusCode::LoopDetected)
        } else if n == 510 {
            Some(HttpStatusCode::NotExtended)
        } else if n == 511 {
            Some(HttpStatusCode::NetworkAuthenticationRequired)
        } else {
            None
        }
}

impl HttpStatusCode {
    /// The number of this status.
    pub open spec fn spec_code(self) -> nat {
        match self {
            HttpStatusCode::Continue => 100,
            HttpStatusCode::SwitchingProtocols => 101,
            HttpStatusCode::Processing => 102,
            HttpStatusCode::EarlyHints => 103,
            HttpStatusCode::OK => 200,
            HttpStatusCode::Created => 201,
            HttpStatusCode::Accepted => 202,
            HttpStatusCode::NonAuthoritativeInformation => 203,
            HttpStatusCode::NoContent => 204,
            HttpStatusCode::ResetContent => 205,
            HttpStatusCode::PartialContent => 206,
            HttpStatusCode::MultiStatus => 207,
            HttpStatusCode::AlreadyReported => 208,
            HttpStatusCode::ImUsed => 226,
            HttpStatusCode::MultipleChoices => 300,
            HttpStatusCode::MovedPermanently => 301,
            HttpStatusCode::Found => 302,
            HttpStatusCode::SeeOther => 303,
            HttpStatusCode::NotModified => 304,
            HttpStatusCode::UseProxy => 305,
            HttpStatusCode::Unused => 306,
            HttpStatusCode::TemporaryRedirect => 307,
            HttpStatusCode::PermanentRedirect => 308,
            HttpStatusCode::BadRequest => 400,
            HttpStatusCode::Unauthorized => 401,
            HttpStatusCode::PaymentRequired => 402,
            HttpStatusCode::Forbidden => 403,
            HttpStatusCode::NotFound => 404,
            HttpStatusCode::MethodNotAllowed => 405,
            HttpStatusCode::NotAcceptable => 406,
            HttpStatusCode::ProxyAuthenticationRequired => 407,
            HttpStatusCode::RequestTimeout => 408,
            HttpStatusCode::Conflict => 409,
            HttpStatusCode::Gone => 410,
            HttpStatusCode::LengthRequired => 411,
            HttpStatusCode::PreconditionFailed => 412,
            HttpStatusCode::ContentTooLarge => 413,
            HttpStatusCode::UriTooLong => 414,
            HttpStatusCode::UnsupportedMediaType => 415,
            HttpStatusCode::RangeNotSatisfiable => 416,
            HttpStatusCode::ExpectationFailed => 417,
            HttpStatusCode::ImATeapot => 418,
            HttpStatusCode::MisdirectedRequest => 421,
            HttpStatusCode::UnprocessableContent => 422,
            HttpStatusCode::Locked => 423,
            HttpStatusCode::FailedDependency => 424,
            HttpStatusCode::TooEarly => 425,
            HttpStatusCode::UpgradeRequired => 426,
            HttpStatusCode::PreconditionRequired => 428,
            HttpStatusCode::TooManyRequests => 429,
            HttpStatusCode::RequestHeaderFieldsTooLarge => 431,
            HttpStatusCode::UnavailableForLegalReasons => 451,
            HttpStatusCode::InternalServerError => 500,
            HttpStatusCode::NotImplemented => 501,
            HttpStatusCode::BadGateway => 502,
            HttpStatusCode::ServiceUnavailable => 503,
            HttpStatusCode::GatewayTimeout => 504,
            HttpStatusCode::HTTPVersionNotSupported => 505,
            HttpStatusCode::VariantAlsoNegotiates => 506,
            HttpStatusCode::InsufficientStorage => 507,
            HttpStatusCode::LoopDetected => 508,
            HttpStatusCode::NotExtended => 510,
            HttpStatusCode::NetworkAuthenticationRequired => 511,
        }
    }

    /// The canonical reason phrase of this status.
    pub open spec fn reason(self) -> Seq<char> {
        match self {
            HttpStatusCode::Continue => "Continue"@,
            HttpStatusCode::SwitchingProtocols => "Switching Protocols"@,
            HttpStatusCode::Processing => "Processing"@,
            HttpStatusCode::EarlyHints => "Early Hints"@,
            HttpStatusCode::OK => "OK"@,
            HttpStatusCode::Created => "Created"@,
            HttpStatusCode::Accepted => "Accepted"@,
            HttpStatusCode::NonAuthoritativeInformation => "Non-Authoritative Information"@,
            HttpStatusCode::NoContent => "No Content"@,
            HttpStatusCode::ResetContent => "Reset Content"@,
            HttpStatusCode::PartialContent => "Partial Content"@,
            HttpStatusCode::MultiStatus => "Multi-Status"@,
            HttpStatusCode::AlreadyReported => "Already Reported"@,
            HttpStatusCode::ImUsed => "IM Used"@,
            HttpStatusCode::MultipleChoices => "Multiple Choices"@,
            HttpStatusCode::MovedPermanently => "Moved Permanently"@,
            HttpStatusCode::Found => "Found"@,
            HttpStatusCode::SeeOther => "See Other"@,
            HttpStatusCode::NotModified => "Not Modified"@,
            HttpStatusCode::UseProxy => "Use Proxy"@,
            HttpStatusCode::Unused => "unused"@,
            HttpStatusCode::TemporaryRedirect => "Temporary Redirect"@,
            HttpStatusCode::PermanentRedirect => "Permanent Redirect"@,
            HttpStatusCode::BadRequest => "Bad Request"@,
            HttpStatusCode::Unauthorized => "Unauthorized"@,
            HttpStatusCode::PaymentRequired => "Payment Required"@,
            HttpStatusCode::Forbidden => "Forbidden"@,
            HttpStatusCode::NotFound => "Not Found"@,
            HttpStatusCode::MethodNotAllowed => "Method Not Allowed"@,
            HttpStatusCode::NotAcceptable => "Not Acceptable"@,
            HttpStatusCode::ProxyAuthenticationRequired => "Proxy Authentication Required"@,
            HttpStatusCode::RequestTimeout => "Request Timeout"@,
            HttpStatusCode::Conflict => "Conflict"@,
            HttpStatusCode::Gone => "Gone"@,
            HttpStatusCode::LengthRequired => "Length Required"@,
            HttpStatusCode::PreconditionFailed => "Precondition Failed"@,
            HttpStatusCode::ContentTooLarge => "Content Too Large"@,
            HttpStatusCode::UriTooLong => "URI Too Long"@,
            HttpStatusCode::UnsupportedMediaType => "Unsupported Media Type"@,
            HttpStatusCode::RangeNotSatisfiable => "Range Not Satisfiable"@,
            HttpStatusCode::ExpectationFailed => "Expectation Failed"@,
            HttpStatusCode::ImATeapot => "I'm a teapot"@,
            HttpStatusCode::MisdirectedRequest => "Misdirected Request"@,
            HttpStatusCode::UnprocessableContent => "Unprocessable Content"@,
            HttpStatusCode::Locked => "Locked"@,
            HttpStatusCode::FailedDependency => "Failed Dependency"@,
            HttpStatusCode::TooEarly => "Too Early"@,
            HttpStatusCode::UpgradeRequired => "Upgrade Required"@,
            HttpStatusCode::PreconditionRequired => "Precondition Required"@,
            HttpStatusCode::TooManyRequests => "Too Many Requests"@,
            HttpStatusCode::RequestHeaderFieldsTooLarge => "Request Header Fields Too Large"@,
            HttpStatusCode::UnavailableForLegalReasons => "Unavailable For Legal Reasons"@,
            HttpStatusCode::InternalServerError => "Internal Server Error"@,
            HttpStatusCode::NotImplemented => "Not Implemented"@,
            HttpStatusCode::BadGateway => "Bad Gateway"@,
            HttpStatusCode::ServiceUnavailable => "Service Unavailable"@,
            HttpStatusCode::GatewayTimeout => "Gateway Timeout"@,
            HttpStatusCode::HTTPVersionNotSupported => "HTTP Version Not Supported"@,
            HttpStatusCode::VariantAlsoNegotiates => "Variant Also Negotiates"@,
            HttpStatusCode::InsufficientStorage => "Insufficient Storage"@,
            HttpStatusCode::LoopDetected => "Loop Detected"@,
            HttpStatusCode::NotExtended => "Not Extended"@,
            HttpStatusCode::NetworkAuthenticationRequired => "Network Authentication Required"@,
        }
    }

    /// The number of this status.
    pub fn code(self) -> (r: u16)
        ensures
            r as nat == self.spec_code(),
    {
        match self {
            HttpStatusCode::Continue => 100,
            HttpStatusCode::SwitchingProtocols => 101,
            HttpStatusCode::Processing => 102,
            HttpStatusCode::EarlyHints => 103,
            HttpStatusCode::OK => 200,
            HttpStatusCode::Created => 201,
            HttpStatusCode::Accepted => 202,
            HttpStatusCode::NonAuthoritativeInformation => 203,
            HttpStatusCode::NoContent => 204,
            HttpStatusCode::ResetContent => 205,
            HttpStatusCode::PartialContent => 206,
            HttpStatusCode::MultiStatus => 207,
            HttpStatusCode::AlreadyReported => 208,
            HttpStatusCode::ImUsed => 226,
            HttpStatusCode::MultipleChoices => 300,
            HttpStatusCode::MovedPermanently => 301,
            HttpStatusCode::Found => 302,
            HttpStatusCode::SeeOther => 303,
            HttpStatusCode::NotModified => 304,
            HttpStatusCode::UseProxy => 305,
            HttpStatusCode::Unused => 306,
            HttpStatusCode::TemporaryRedirect => 307,
            HttpStatusCode::PermanentRedirect => 308,
            HttpStatusCode::BadRequest => 400,
            HttpStatusCode::Unauthorized => 401,
            HttpStatusCode::PaymentRequired => 402,
            HttpStatusCode::Forbidden => 403,
            HttpStatusCode::NotFound => 404,
            HttpStatusCode::MethodNotAllowed => 405,
            HttpStatusCode::NotAcceptable => 406,
            HttpStatusCode::ProxyAuthenticationRequired => 407,
            HttpStatusCode::RequestTimeout => 408,
            HttpStatusCode::Conflict => 409,
            HttpStatusCode::Gone => 410,
            HttpStatusCode::LengthRequired => 411,
            HttpStatusCode::PreconditionFailed => 412,
            HttpStatusCode::ContentTooLarge => 413,
            HttpStatusCode::UriTooLong => 414,
            HttpStatusCode::UnsupportedMediaType => 415,
            HttpStatusCode::RangeNotSatisfiable => 416,
            HttpStatusCode::ExpectationFailed => 417,
            HttpStatusCode::ImATeapot => 418,
            HttpStatusCode::MisdirectedRequest => 421,
            HttpStatusCode::UnprocessableContent => 422,
            HttpStatusCode::Locked => 423,
            HttpStatusCode::FailedDependency => 424,
            HttpStatusCode::TooEarly => 425,
            HttpStatusCode::UpgradeRequired => 426,
            HttpStatusCode::PreconditionRequired => 428,
            HttpStatusCode::TooManyRequests => 429,
            HttpStatusCode::RequestHeaderFieldsTooLarge => 431,
            HttpStatusCode::UnavailableForLegalReasons => 451,
            HttpStatusCode::InternalServerError => 500,
            HttpStatusCode::NotImplemented => 501,
            HttpStatusCode::BadGateway => 502,
            HttpStatusCode::ServiceUnavailable => 503,
            HttpStatusCode::GatewayTimeout => 504,
            HttpStatusCode::HTTPVersionNotSupported => 505,
            HttpStatusCode::VariantAlsoNegotiates => 506,
            HttpStatusCode::InsufficientStorage => 507,
            HttpStatusCode::LoopDetected => 508,
            HttpStatusCode::NotExtended => 510,
            HttpStatusCode::NetworkAuthenticationRequired => 511,
        }
    }

    /// The status whose number is `n`, where the table has one.
    pub fn from_code(n: u16) -> (r: Option<HttpStatusCode>)
        ensures
            r == status_of_code(n as int),
    {
        match n {
            100 => Some(HttpStatusCode::Continue),
            101 => Some(HttpStatusCode::SwitchingProtocols),
            102 => Some(HttpStatusCode::Processing),
            103 => Some(HttpStatusCode::EarlyHints),
            200 => Some(HttpStatusCode::OK),
            201 => Some(HttpStatusCode::Created),
            202 => Some(HttpStatusCode::Accepted),
            203 => Some(HttpStatusCode::NonAuthoritativeInformation),
            204 => Some(HttpStatusCode::NoContent),
            205 => Some(HttpStatusCode::ResetContent),
            206 => Some(HttpStatusCode::PartialContent),
            207 => Some(HttpStatusCode::MultiStatus),
            208 => Some(HttpStatusCode::AlreadyReported),
            226 => Some(HttpStatusCode::ImUsed),
            300 => Some(HttpStatusCode::MultipleChoices),
            301 => Some(HttpStatusCode::MovedPermanently),
            302 => Some(HttpStatusCode::Found),
            303 => Some(HttpStatusCode::SeeOther),
            304 => Some(HttpStatusCode::NotModified),
            305 => Some(HttpStatusCode::UseProxy),
            306 => Some(HttpStatusCode::Unused),
            307 => Some(HttpStatusCode::TemporaryRedirect),
            308 => Some(HttpStatusCode::PermanentRedirect),
            400 => Some(HttpStatusCode::BadRequest),
            401 => Some(HttpStatusCode::Unauthorized),
            402 => Some(HttpStatusCode::PaymentRequired),
            403 => Some(HttpStatusCode::Forbidden),
            404 => Some(HttpStatusCode::NotFound),
            405 => Some(HttpStatusCode::MethodNotAllowed),
            406 => Some(HttpStatusCode::NotAcceptable),
            407 => Some(HttpStatusCode::ProxyAuthenticationRequired),
            408 => Some(HttpStatusCode::RequestTimeout),
            409 => Some(HttpStatusCode::Conflict),
            410 => Some(HttpStatusCode::Gone),
            411 => Some(HttpStatusCode::LengthRequired),
            412 => Some(HttpStatusCode::PreconditionFailed),
            413 => Some(HttpStatusCode::ContentTooLarge),
            414 => Some(HttpStatusCode::UriTooLong),
            415 => Some(HttpStatusCode::UnsupportedMediaType),
            416 => Some(HttpStatusCode::RangeNotSatisfiable),
            417 => Some(HttpStatusCode::ExpectationFailed),
            418 => Some(HttpStatusCode::ImATeapot),
            421 => Some(HttpStatusCode::MisdirectedRequest),
            422 => Some(HttpStatusCode::UnprocessableContent),
            423 => Some(HttpStatusCode::Locked),
            424 => Some(HttpStatusCode::FailedDependency),
            425 => Some(HttpStatusCode::TooEarly),
            426 => Some(HttpStatusCode::UpgradeRequired),
            428 => Some(HttpStatusCode::PreconditionRequired),
            429 => Some(HttpStatusCode::TooManyRequests),
            431 => Some(HttpStatusCode::RequestHeaderFieldsTooLarge),
            451 => Some(HttpStatusCode::UnavailableForLegalReasons),
            500 => Some(HttpStatusCode::InternalServerError),
            501 => Some(HttpStatusCode::NotImplemented),
            502 => Some(HttpStatusCode::BadGateway),
            503 => Some(HttpStatusCode::ServiceUnavailable),
            504 => Some(HttpStatusCode::GatewayTimeout),
            505 => Some(HttpStatusCode::HTTPVersionNotSupported),
            506 => Some(HttpStatusCode::VariantAlsoNegotiates),
            507 => Some(HttpStatusCode::InsufficientStorage),
            508 => Some(HttpStatusCode::LoopDetected),
            510 => Some(HttpStatusCode::NotExtended),
            511 => Some(HttpStatusCode::NetworkAuthenticationRequired),
            _ => None,
        }
    }

    /// The canonical reason phrase of this status.
    pub fn get_readable_name(self) -> (r: &'static str)
        ensures
            r@ == self.reason(),
    {
        match self {
            HttpStatusCode::Continue => "Continue",
            HttpStatusCode::SwitchingProtocols => "Switching Protocols",
            HttpStatusCode::Processing => "Processing",
            HttpStatusCode::EarlyHints => "Early Hints",
            HttpStatusCode::OK => "OK",
            HttpStatusCode::Created => "Created",
            HttpStatusCode::Accepted => "Accepted",
            HttpStatusCode::NonAuthoritativeInformation => "Non-Authoritative Information",
            HttpStatusCode::NoContent => "No Content",
            HttpStatusCode::ResetContent => "Reset Content",
            HttpStatusCode::PartialContent => "Partial Content",
            HttpStatusCode::MultiStatus => "Multi-Status",
            HttpStatusCode::AlreadyReported => "Already Reported",
            HttpStatusCode::ImUsed => "IM Used",
            HttpStatusCode::MultipleChoices => "Multiple Choices",
            HttpStatusCode::MovedPermanently => "Moved Permanently",
            HttpStatusCode::Found => "Found",
            HttpStatusCode::SeeOther => "See Other",
            HttpStatusCode::NotModified => "Not Modified",
            HttpStatusCode::UseProxy => "Use Proxy",
            HttpStatusCode::Unused => "unused",
            HttpStatusCode::TemporaryRedirect => "Temporary Redirect",
            HttpStatusCode::PermanentRedirect => "Permanent Redirect",
            HttpStatusCode::BadRequest => "Bad Request",
            HttpStatusCode::Unauthorized => "Unauthorized",
            HttpStatusCode::PaymentRequired => "Payment Required",
            HttpStatusCode::Forbidden => "Forbidden",
            HttpStatusCode::NotFound => "Not Found",
            HttpStatusCode::MethodNotAllowed => "Method Not Allowed",
            HttpStatusCode::NotAcceptable => "Not Acceptable",
            HttpStatusCode::ProxyAuthenticationRequired => "Proxy Authentication Required",
            HttpStatusCode::RequestTimeout => "Request Timeout",
            HttpStatusCode::Conflict => "Conflict",
            HttpStatusCode::Gone => "Gone",
            HttpStatusCode::LengthRequired => "Length Required",
            HttpStatusCode::PreconditionFailed => "Precondition Failed",
            HttpStatusCode::ContentTooLarge => "Content Too Large",
            HttpStatusCode::UriTooLong => "URI Too Long",
            HttpStatusCode::UnsupportedMediaType => "Unsupported Media Type",
            HttpStatusCode::RangeNotSatisfiable => "Range Not Satisfiable",
            HttpStatusCode::ExpectationFailed => "Expectation Failed",
            HttpStatusCode::ImATeapot => "I'm a teapot",
            HttpStatusCode::MisdirectedRequest => "Misdirected Request",
            HttpStatusCode::UnprocessableContent => "Unprocessable Content",
            HttpStatusCode::Locked => "Locked",
            HttpStatusCode::FailedDependency => "Failed Dependency",
            HttpStatusCode::TooEarly => "Too Early",
            HttpStatusCode::UpgradeRequired => "Upgrade Required",
            HttpStatusCode::PreconditionRequired => "Precondition Required",
            HttpStatusCode::TooManyRequests => "Too Many Requests",
            HttpStatusCode::RequestHeaderFieldsTooLarge => "Request Header Fields Too Large",
            HttpStatusCode::UnavailableForLegalReasons => "Unavailable For Legal Reasons",
            HttpStatusCode::InternalServerError => "Internal Server Error",
            HttpStatusCode::NotImplemented => "Not Implemented",
            HttpStatusCode::BadGateway => "Bad Gateway",
            HttpStatusCode::ServiceUnavailable => "Service Unavailable",
            HttpStatusCode::GatewayTimeout => "Gateway Timeout",
            HttpStatusCode::HTTPVersionNotSupported => "HTTP Version Not Supported",
            HttpStatusCode::VariantAlsoNegotiates => "Variant Also Negotiates",
            HttpStatusCode::InsufficientStorage => "Insufficient Storage",
            HttpStatusCode::LoopDetected => "Loop Detected",
            HttpStatusCode::NotExtended => "Not Extended",
            HttpStatusCode::NetworkAuthenticationRequired => "Network Authentication Required",
        }
    }
}

/// The text of a status: its number, a space and its reason phrase.
pub open spec fn status_text(st: HttpStatusCode) -> Seq<char> {
    decimal_text(st.spec_code()) + seq![' '] + st.reason()
}

/// Appends the characters of `s` to `out`.
fn push_str(out: &mut Vec<char>, s: &str)
    ensures
        final(out)@ == old(out)@ + s@,
{
    let cs = chars_of(s);
    let mut i: usize = 0;
    while i < cs.len()
        invariant
            i <= cs@.len(),
            out@ == old(out)@ + cs@.subrange(0, i as int),
        decreases cs.len() - i,
    {
        out.push(cs[i]);
        i = i + 1;
        assert(out@ =~= old(out)@ + cs@.subrange(0, i as int));
    }
    assert(cs@.subrange(0, cs@.len() as int) =~= s@);
}

impl HttpStatusCode {
    /// Appends the text of this status to `out`.
    pub fn write_to(self, out: &mut Vec<char>)
        ensures
            final(out)@ == old(out)@ + status_text(self),
    {
        push_decimal(out, self.code() as u32);
        out.push(' ');
        push_str(out, self.get_readable_name());
        assert(out@ =~= old(out)@ + status_text(self));
    }

    /// The text of this status, such as `404 Not Found`.
    pub fn to_string(self) -> (r: String)
        ensures
            r@ == status_text(self),
    {
        let mut out: Vec<char> = Vec::new();
        self.write_to(&mut out);
        assert(out@ =~= status_text(self));
        string_of(&out, 0, out.len())
    }
}

/// The header lines of a response, each with its terminator.
pub open spec fn headers_text(es: HeaderSeq) -> Seq<char>
    decreases es.len(),
{
    if es.len() == 0 {
        Seq::empty()
    } else {
        headers_text(es.drop_last()) + es.last().0 + header_separator() + es.last().1 + crlf()
    }
}

/// The status line of a response, without its terminator.
pub open spec fn status_line(v: HttpVersion, st: HttpStatusCode) -> Seq<char> {
    version_text(v) + seq![' '] + status_text(st)
}

/// The version and status that a status line starts with: a version, a
/// space, a status number in the table and a space.
pub open spec fn status_line_at(s: Seq<char>) -> Option<(HttpVersion, HttpStatusCode)> {
    match version_at(s, 0) {
        Err(_) => None,
        Ok((v, q)) => if q < s.len() && s[q] == ' ' {
            let d = run_end(s, q + 1, CharClass::Digit);
            match number_of(s.subrange(q + 1, d)) {
                Err(_) => None,
                Ok(n) => if d < s.len() && s[d] == ' ' {
                    match status_of_code(n as int) {
                        Some(st) => Some((v, st)),
                        None => None,
                    }
                } else {
                    None
                },
            }
        } else {
            None
        },
    }
}

/// Each status's number leads back to that status.
pub proof fn lemma_status_code_round_trip(st: HttpStatusCode)
    ensures
        status_of_code(st.spec_code() as int) == Some(st),
        100 <= st.spec_code() <= 511,
{
}

/// A response as plain values.
pub struct ResponseView {
    pub status: HttpStatusCode,
    pub version: HttpVersion,
    pub headers: HeaderSeq,
    pub body: Seq<char>,
}

/// The wire form of a response: status line, header lines, a blank line,
/// then the body with nothing after it.
pub open spec fn serialized(r: ResponseView) -> Seq<char> {
    status_line(r.version, r.status) + crlf() + headers_text(r.headers) + crlf() + r.body
}

/// A response to be written back to a client.
#[derive(Debug, Clone, PartialEq, Eq)]
pub struct HttpResponse {
    status: HttpStatusCode,
    version: HttpVersion,
    headers: Headers,
    body: String,
}

impl View for HttpResponse {
    type V = ResponseView;

    closed spec fn view(&self) -> ResponseView {
        ResponseView {
            status: self.status,
            version: self.version,
            headers: self.headers@,
            body: self.body@,
        }
    }
}

impl HttpResponse {
    /// Well-formed: header names are unique.
    pub closed spec fn wf(&self) -> bool {
        self.headers.wf()
    }

    /// A response from its parts.
    pub fn new(status: HttpStatusCode, version: HttpVersion, headers: Headers, body: String) -> (r:
        HttpResponse)
        requires
            headers.wf(),
        ensures
            r@ == (ResponseView { status, version, headers: headers@, body: body@ }),
            r.wf(),
    {
        HttpResponse { status, version, headers, body }
    }

    /// A `418 I'm a teapot` response over HTTP/1.1 with no headers.
    pub fn im_a_teapot(body: &str) -> (r: HttpResponse)
        ensures
            r@ == (ResponseView {
                status: HttpStatusCode::ImATeapot,
                version: HttpVersion { major: 1, minor: 1 },
                headers: Seq::empty(),
                body: body@,
            }),
            r.wf(),
    {
        HttpResponse {
            status: HttpStatusCode::ImATeapot,
            version: HttpVersion::new(1, 1),
            headers: Headers::new(),
            body: String::from_str(body),
        }
    }

    /// The status.
    pub fn status(&self) -> (r: HttpStatusCode)
        ensures
            r == self@.status,
    {
        self.status
    }

    /// The protocol version.
    pub fn version(&self) -> (r: HttpVersion)
        ensures
            r == self@.version,
    {
        self.version
    }

    /// The headers.
    pub fn headers(&self) -> (r: &Headers)
        requires
            self.wf(),
        ensures
            r@ == self@.headers,
            r.wf(),
    {
        &self.headers
    }

    /// The body.
    pub fn body(&self) -> (r: &String)
        ensures
            r@ == self@.body,
    {
        &self.body
    }

    /// The version and status at the start of a status line.
    pub fn parse_status_line(line: &str) -> (r: Option<(HttpVersion, HttpStatusCode)>)
        ensures
            r == status_line_at(line@),
    {
        let mut parser = RequestParser::from_str(line);
        let version = match parser.parse_version() {
            Ok(v) => v,
            Err(_) => return None,
        };
        if !(parser.pos < parser.chars.len() && parser.chars[parser.pos] == ' ') {
            return None;
        }
        parser.pos = parser.pos + 1;
        let n = match parser.parse_number() {
            Ok(n) => n,
            Err(_) => return None,
        };
        if !(parser.pos < parser.chars.len() && parser.chars[parser.pos] == ' ') {
            return None;
        }
        if n > 65535 {
            return None;
        }
        match HttpStatusCode::from_code(n as u16) {
            Some(st) => Some((version, st)),
            None => None,
        }
    }

    /// The wire form of this response.
    pub fn to_string(&self) -> (r: String)
        ensures
            r@ == serialized(self@),
    {
        let mut out: Vec<char> = Vec::new();
        self.version.write_to(&mut out);
        out.push(' ');
        self.status.write_to(&mut out);
        out.push('\r');
        out.push('\n');
        let ghost head = out@;
        let mut i: usize = 0;
        while i < self.headers.len()
            invariant
                i <= self@.headers.len(),
                out@ == head + headers_text(self@.headers.subrange(0, i as int)),
            decreases self@.headers.len() - i,
        {
            let ghost before = out@;
            push_str(&mut out, self.headers.key_at(i).as_str());
            out.push(':');
            out.push(' ');
            push_str(&mut out, self.headers.value_at(i).as_str());
            out.push('\r');
            out.push('\n');
            proof {
                let es = self@.headers.subrange(0, i + 1);
                assert(es.drop_last() =~= self@.headers.subrange(0, i as int));
                assert(out@ =~= head + headers_text(es));
            }
            i = i + 1;
        }
        assert(self@.headers.subrange(0, i as int) =~= self@.headers);
        out.push('\r');
        out.push('\n');
        push_str(&mut out, self.body.as_str());
        assert(out@ =~= serialized(self@));
        string_of(&out, 0, out.len())
    }
}

/// The status line of a serialized response reads back as the response's
/// version and status.
pub proof fn lemma_status_line_round_trip(r: ResponseView)
    ensures
        status_line_at(serialized(r)) == Some((r.version, r.status)),
{
    let s = serialized(r);
    let vt = version_text(r.version);
    let q: int = vt.len() as int;
    let rest = s.subrange(q, s.len() as int);
    assert(s =~= vt + rest);
    assert(rest[0] == ' ');
    lemma_version_text_reads_back(r.version, rest);
    let code = r.status.spec_code();
    let ct = decimal_text(code);
    let d: int = q + 1 + ct.len() as int;
    lemma_decimal_text(code);
    lemma_status_code_round_trip(r.status);
    assert(s[q] == ' ');
    assert(s.subrange(q + 1, d) =~= ct);
    assert(s[d] == ' ');
    lemma_number_at(s, q + 1, code);
}

} // verus!
