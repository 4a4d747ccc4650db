use vstd::prelude::*;

verus! {

/// The ways a TXT-record check can fail. A negative answer ("no record
/// matched") is not a failure and is reported as `Ok(false)` by the check
/// itself; these variants cover only the terminal failure points.
///
/// Variants that wrap an underlying cause carry its textual description,
/// so a caller can still diagnose what went wrong.
#[derive(Debug)]
pub enum TxtRecordError {
    /// The input string could not be parsed as a URL.
    UrlParseError(String),
    /// The input parsed as a URL, but its authority holds no domain name.
    NoDomainInUrl,
    /// The DNS query itself failed (for example NXDOMAIN, a timeout, or a
    /// network failure).
    DnsResolutionError(String),
}

impl TxtRecordError {
    /// A human-readable description of the failure.
    pub fn describe(&self) -> (r: String)
        ensures
            match self {
                TxtRecordError::UrlParseError(m) => r@ == m@,
                TxtRecordError::NoDomainInUrl => r@ == "no domain in URL"@,
                TxtRecordError::DnsResolutionError(m) => r@ == m@,
            },
    {
        match self {
            TxtRecordError::UrlParseError(m) => m.clone(),
            TxtRecordError::NoDomainInUrl => "no domain in URL".to_owned(),
            TxtRecordError::DnsResolutionError(m) => m.clone(),
        }
    }
}

/// Two errors are equivalent when they are the same failure with the same
/// description.
pub open spec fn error_equiv(a: TxtRecordError, b: TxtRecordError) -> bool {
    match (a, b) {
        (TxtRecordError::UrlParseError(m1), TxtRecordError::UrlParseError(m2)) => m1@ == m2@,
        (TxtRecordError::NoDomainInUrl, TxtRecordError::NoDomainInUrl) => true,
        (
            TxtRecordError::DnsResolutionError(m1),
            TxtRecordError::DnsResolutionError(m2),
        ) => m1@ == m2@,
        _ => false,
    }
}

} // verus!
