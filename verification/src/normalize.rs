use vstd::prelude::*;

use crate::error::TxtRecordError;

verus! {

/// The outcome of interpreting the input string as an absolute URL and
/// reading its domain name:
/// - `Ok(Some(domain))`: the string parses and its host is a domain name;
/// - `Ok(None)`: the string parses, but its host is absent or is an IP
///   address rather than a domain name;
/// - `Err(message)`: the string does not parse as an absolute URL; the
///   payload is the parser's description of the failure.
///
/// URL parsing is a function of the input string alone, so this outcome is
/// too.
pub uninterp spec fn url_parse_of(s: Seq<char>) -> Result<Option<Seq<char>>, Seq<char>>;

/// Relies on `url::Url::parse` and `url::Url::domain`: parsing is
/// deterministic in the input string, and `domain` returns the URL's host
/// exactly when that host is a domain name (not an IP address, not absent).
/// The error message is the parse error's `Display` text.
#[verifier::external_body]
fn extract_domain(input: &str) -> (r: Result<Option<String>, String>)
    ensures
        match r {
            Ok(Some(d)) => url_parse_of(input@) matches Ok(Some(dd)) && dd == d@,
            Ok(None) => url_parse_of(input@) matches Ok(None),
            Err(m) => url_parse_of(input@) matches Err(mm) && mm == m@,
        },
{
    match url::Url::parse(input) {
        Ok(u) => Ok(u.domain().map(|d| d.to_string())),
        Err(e) => Err(format!("{}", e)),
    }
}

/// What `normalize` must return for a given input: the domain when the URL
/// parse yields one, and otherwise exactly the error that names the failed
/// stage.
pub open spec fn normalize_result_spec(input: Seq<char>, r: Result<String, TxtRecordError>) -> bool {
    match r {
        Ok(d) => url_parse_of(input) matches Ok(Some(dd)) && dd == d@,
        Err(TxtRecordError::UrlParseError(m)) => url_parse_of(input) matches Err(mm) && mm == m@,
        Err(TxtRecordError::NoDomainInUrl) => url_parse_of(input) matches Ok(None),
        Err(TxtRecordError::DnsResolutionError(_)) => false,
    }
}

/// Interpret the caller's input as an absolute URL and extract the domain
/// name to query.
///
/// The result is the decoded host component only: no scheme, no port, no
/// path, no credentials. A string with no scheme (a bare hostname) is
/// rejected as `UrlParseError`, and a URL whose host is an IP address or
/// absent is rejected as `NoDomainInUrl`; no DNS query is attempted for a
/// rejected input.
pub fn normalize(input: &str) -> (r: Result<String, TxtRecordError>)
    ensures
        normalize_result_spec(input@, r),
{
    match extract_domain(input) {
        Ok(Some(d)) => Ok(d),
        Ok(None) => Err(TxtRecordError::NoDomainInUrl),
        Err(m) => Err(TxtRecordError::UrlParseError(m)),
    }
}

} // verus!
