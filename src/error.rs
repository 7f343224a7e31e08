use vstd::prelude::*;
use crate::text::{append_decimal, decimal, holds_char, holds_seq, lemma_decimal_has_no_colon};

verus! {

/// Why an npm-compatible package identifier could not be turned back into a scope and a name.
#[derive(Debug, Clone, PartialEq, Eq)]
pub enum NpmCompParseError {
    /// The identifier does not start with `@<provider scope>/`; holds that provider scope.
    PrefixMismatch(String),
    /// What follows the prefix is not `<scope>__<name>` with both parts non-empty.
    FormatError,
}

impl NpmCompParseError {
    /// The rendered message.
    pub fn message(&self) -> (r: String)
        ensures
            r@ == (match self {
                NpmCompParseError::PrefixMismatch(p) => "Input does not start with @"@ + p@ + "/"@,
                NpmCompParseError::FormatError => "Input does not have the correct format (scope__name)"@,
            }),
    {
        let mut r = String::new();
        match self {
            NpmCompParseError::PrefixMismatch(p) => {
                r.append("Input does not start with @");
                r.append(p.as_str());
                r.append("/");
            },
            NpmCompParseError::FormatError => {
                r.append("Input does not have the correct format (scope__name)");
            },
        }
        assert(r@ =~= (match self {
            NpmCompParseError::PrefixMismatch(p) => "Input does not start with @"@ + p@ + "/"@,
            NpmCompParseError::FormatError => "Input does not have the correct format (scope__name)"@,
        }));
        r
    }
}

/// Why a response body could not be read as the expected registry value.
#[derive(Debug, Clone)]
pub enum DecodeError {
    /// The body is not JSON text.
    NotJson,
    /// The JSON does not have the expected shape; holds the name of the member
    /// where reading stopped.
    Mismatch(String),
}

/// Why the transport could not complete a request.
#[derive(Debug, Clone, Copy, PartialEq, Eq, Structural)]
pub enum TransportKind {
    /// No connection could be made.
    Connect,
    /// The request or the answer took too long.
    Timeout,
    /// The request could not be built or sent.
    Request,
    /// The answer's body could not be read.
    Body,
    /// Any other failure.
    Other,
}

/// Why a fetch failed. No variant holds the request URL.
#[derive(Debug, Clone)]
pub enum FetchError {
    /// The transport failed.
    Transport(TransportKind),
    /// The registry answered with a status outside 2xx other than 404.
    Http(u16),
    /// The body of a success answer could not be read as the expected value.
    Decode(DecodeError),
}

/// The name of a transport failure kind.
pub open spec fn transport_kind_name(k: TransportKind) -> Seq<char> {
    match k {
        TransportKind::Connect => "connect"@,
        TransportKind::Timeout => "timeout"@,
        TransportKind::Request => "request"@,
        TransportKind::Body => "body"@,
        TransportKind::Other => "other"@,
    }
}

/// The rendered message of a fetch error. It is built from the error's kind
/// and status alone.
pub open spec fn fetch_error_message(e: FetchError) -> Seq<char> {
    match e {
        FetchError::Transport(k) => "transport failure ("@ + transport_kind_name(k) + ")"@,
        FetchError::Http(s) => "HTTP status "@ + decimal(s as nat),
        FetchError::Decode(DecodeError::NotJson) => "response body is not JSON"@,
        FetchError::Decode(DecodeError::Mismatch(_)) => "response body does not have the expected shape"@,
    }
}

/// A rendered fetch error never holds `:`, and so never holds a URL, whose
/// scheme is always followed by `:`.
pub proof fn lemma_fetch_error_message_has_no_url(e: FetchError)
    ensures
        !holds_char(fetch_error_message(e), ':'),
{
    reveal_strlit("transport failure (");
    reveal_strlit(")");
    reveal_strlit("connect");
    reveal_strlit("timeout");
    reveal_strlit("request");
    reveal_strlit("body");
    reveal_strlit("other");
    reveal_strlit("HTTP status ");
    reveal_strlit("response body is not JSON");
    reveal_strlit("response body does not have the expected shape");
    match e {
        FetchError::Transport(k) => {
            let m = fetch_error_message(e);
            let a = "transport failure ("@;
            let b = transport_kind_name(k);
            assert(m == a + b + ")"@);
            assert forall|i: int| 0 <= i < m.len() implies m[i] != ':' by {
                if i < a.len() {
                    assert(m[i] == a[i]);
                } else if i < a.len() + b.len() {
                    assert(m[i] == b[i - a.len()]);
                } else {
                    assert(m[i] == ")"@[i - a.len() - b.len()]);
                }
            }
        },
        FetchError::Http(s) => {
            let m = fetch_error_message(e);
            let a = "HTTP status "@;
            lemma_decimal_has_no_colon(s as nat);
            assert forall|i: int| 0 <= i < m.len() implies m[i] != ':' by {
                if i < a.len() {
                    assert(m[i] == a[i]);
                } else {
                    assert(m[i] == decimal(s as nat)[i - a.len()]);
                }
            }
        },
        _ => {},
    }
}

/// A rendered fetch error never holds a text that holds `:`; every absolute
/// URL does, after its scheme.
pub proof fn lemma_fetch_error_message_omits_url(e: FetchError, url: Seq<char>)
    requires
        holds_char(url, ':'),
    ensures
        !holds_seq(fetch_error_message(e), url),
{
    let m = fetch_error_message(e);
    lemma_fetch_error_message_has_no_url(e);
    if holds_seq(m, url) {
        let p = choose|p: int| 0 <= p && p + url.len() <= m.len() && #[trigger] m.subrange(p, p + url.len()) == url;
        let i = choose|i: int| 0 <= i < url.len() && url[i] == ':';
        assert(m.subrange(p, p + url.len())[i] == m[p + i]);
        assert(holds_char(m, ':'));
    }
}

impl FetchError {
    /// The rendered message: the kind of failure and, for `Http`, the status;
    /// never the request URL.
    pub fn message(&self) -> (r: String)
        ensures
            r@ == fetch_error_message(*self),
    {
        let mut r = String::new();
        match self {
            FetchError::Transport(k) => {
                r.append("transport failure (");
                let name = match k {
                    TransportKind::Connect => "connect",
                    TransportKind::Timeout => "timeout",
                    TransportKind::Request => "request",
                    TransportKind::Body => "body",
                    TransportKind::Other => "other",
                };
                r.append(name);
                r.append(")");
            },
            FetchError::Http(s) => {
                r.append("HTTP status ");
                append_decimal(&mut r, *s as u64);
            },
            FetchError::Decode(DecodeError::NotJson) => {
                r.append("response body is not JSON");
            },
            FetchError::Decode(DecodeError::Mismatch(_)) => {
                r.append("response body does not have the expected shape");
            },
        }
        assert(r@ =~= fetch_error_message(*self));
        r
    }
}

} // verus!
