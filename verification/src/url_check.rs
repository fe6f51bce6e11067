//! Validation of the ntfy server URL, on top of the `url` crate's parser.

use vstd::prelude::*;
use crate::text::str_eq;

verus! {

/// The parts of a parsed URL that the bridge reads.
pub struct UrlParts {
    /// The scheme, without the `:` delimiter.
    pub scheme: String,
    /// The host as text, where the URL has one.
    pub host: Option<String>,
    /// The URL as the parser serialises it.
    pub serialization: String,
}

impl UrlParts {
    pub open spec fn parts(&self) -> (Seq<char>, Option<Seq<char>>, Seq<char>) {
        (self.scheme@, self.host.deep_view(), self.serialization@)
    }
}

/// The outcome of parsing a URL: its scheme, host and serialisation, or the
/// text of the parse error.
pub type UrlOutcome = Result<(Seq<char>, Option<Seq<char>>, Seq<char>), Seq<char>>;

/// What `url::Url::parse` gives for an input, as plain text: the scheme, the
/// host and the serialisation of the parsed URL, or the rendering of the
/// parse error.
pub uninterp spec fn url_parse_outcome(input: Seq<char>) -> Result<(Seq<char>, Option<Seq<char>>, Seq<char>), Seq<char>>;

pub open spec fn outcome_of(r: Result<UrlParts, String>) -> UrlOutcome {
    match r {
        Ok(p) => Ok(p.parts()),
        Err(e) => Err(e@),
    }
}

/// Calls `url::Url::parse`. The contract claims only that the returned parts
/// (`scheme()`, `host_str()`, `as_str()`) or the error's text are what the
/// parser gives for this input; what the parser accepts is left to the name
/// `url_parse_outcome`.
#[verifier::external_body]
pub(crate) fn parse_url(input: &str) -> (res: Result<UrlParts, String>)
    ensures
        outcome_of(res) == url_parse_outcome(input@),
{
    match url::Url::parse(input) {
        Ok(u) => Ok(UrlParts {
            scheme: u.scheme().to_string(),
            host: u.host_str().map(String::from),
            serialization: u.as_str().to_string(),
        }),
        Err(e) => Err(e.to_string()),
    }
}

/// The verdict on an ntfy server URL, given what the URL parser made of it:
/// the URL itself where it parsed, with scheme `http` or `https` and a host;
/// otherwise the message that says why not.
pub open spec fn ntfy_url_verdict_spec(input: Seq<char>, parsed: UrlOutcome) -> Result<Seq<char>, Seq<char>> {
    match parsed {
        Err(msg) => Err("invalid URL: "@ + msg),
        Ok((scheme, host, _)) => {
            if scheme != "http"@ && scheme != "https"@ {
                Err("scheme must be http or https"@)
            } else if host is None {
                Err("URL must have a host"@)
            } else {
                Ok(input)
            }
        },
    }
}

pub open spec fn string_result_view(r: Result<String, String>) -> Result<Seq<char>, Seq<char>> {
    match r {
        Ok(s) => Ok(s@),
        Err(e) => Err(e@),
    }
}

/// What the URL check accepts: a URL that the parser accepts, whose scheme is
/// `http` or `https` and that has a host (whatever the host's text) is given
/// back as written; it refuses only a URL that does not parse, one with
/// another scheme, or one without a host, each with its own message.
pub proof fn lemma_ntfy_url_verdict_accepts_exactly_http_urls_with_host(input: Seq<char>, parsed: UrlOutcome)
    ensures
        (parsed matches Ok((scheme, host, _)) && (scheme == "http"@ || scheme == "https"@) && host is Some)
            ==> ntfy_url_verdict_spec(input, parsed) == Ok::<Seq<char>, Seq<char>>(input),
        ntfy_url_verdict_spec(input, parsed) is Err <==> (parsed is Err
            || (parsed matches Ok((scheme, host, _)) && ((scheme != "http"@ && scheme != "https"@) || host is None))),
        parsed matches Err(m) ==> ntfy_url_verdict_spec(input, parsed) == Err::<Seq<char>, Seq<char>>("invalid URL: "@ + m),
        (parsed matches Ok((scheme, _, _)) && scheme != "http"@ && scheme != "https"@)
            ==> ntfy_url_verdict_spec(input, parsed) == Err::<Seq<char>, Seq<char>>("scheme must be http or https"@),
        (parsed matches Ok((scheme, host, _)) && (scheme == "http"@ || scheme == "https"@) && host is None)
            ==> ntfy_url_verdict_spec(input, parsed) == Err::<Seq<char>, Seq<char>>("URL must have a host"@),
{
}

/// Decides on an ntfy server URL from the parser's outcome for it.
pub fn ntfy_url_verdict(url_str: &str, parsed: Result<UrlParts, String>) -> (res: Result<String, String>)
    ensures
        string_result_view(res) == ntfy_url_verdict_spec(url_str@, outcome_of(parsed)),
{
    match parsed {
        Err(msg) => Err(String::from_str("invalid URL: ").concat(msg.as_str())),
        Ok(parts) => {
            if !str_eq(parts.scheme.as_str(), "http") && !str_eq(parts.scheme.as_str(), "https") {
                Err(String::from_str("scheme must be http or https"))
            } else if parts.host.is_none() {
                Err(String::from_str("URL must have a host"))
            } else {
                Ok(String::from_str(url_str))
            }
        },
    }
}

/// Checks the ntfy server URL: it must parse, have scheme `http` or `https`,
/// and have a host. Gives back the URL as it was written.
pub fn parse_ntfy_url(url_str: &str) -> (res: Result<String, String>)
    ensures
        string_result_view(res) == ntfy_url_verdict_spec(url_str@, url_parse_outcome(url_str@)),
        res is Ok ==> res->Ok_0@ == url_str@,
{
    let parsed = parse_url(url_str);
    ntfy_url_verdict(url_str, parsed)
}

} // verus!
