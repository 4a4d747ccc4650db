use vstd::prelude::*;

use crate::error::TxtRecordError;
use crate::normalize::normalize;
use crate::normalize::url_parse_of;
use crate::records::set_has_match;
use crate::records::set_matches;
use crate::records::TxtRecordSet;
use crate::resolver::TxtResolver;

verus! {

/// What the outcome of one lookup decides: a found record set is scanned
/// for an exact match, and a lookup failure becomes `DnsResolutionError`
/// with the resolver's description.
pub open spec fn lookup_outcome_spec(
    outcome: Result<Seq<Seq<Seq<u8>>>, Seq<char>>,
    expected: Seq<char>,
    r: Result<bool, TxtRecordError>,
) -> bool {
    match r {
        Ok(found) => outcome matches Ok(recs) && found == set_matches(recs, expected),
        Err(TxtRecordError::DnsResolutionError(m)) => outcome matches Err(mm) && mm == m@,
        Err(_) => false,
    }
}

/// Decide the check from what the resolver answered.
///
/// A successful lookup — even one with zero records — never becomes an
/// error: the result is `Ok` with the matcher's verdict. Only a failed
/// lookup becomes `DnsResolutionError`.
pub fn check_lookup_outcome(
    outcome: Result<TxtRecordSet, String>,
    expected_record: &str,
) -> (r: Result<bool, TxtRecordError>)
    ensures
        match outcome {
            Ok(rs) => lookup_outcome_spec(Ok(rs@), expected_record@, r),
            Err(m) => lookup_outcome_spec(Err(m@), expected_record@, r),
        },
{
    match outcome {
        Ok(rs) => Ok(set_has_match(&rs, expected_record)),
        Err(m) => Err(TxtRecordError::DnsResolutionError(m)),
    }
}

/// What `check_txt_record` must return for a given resolver, input and
/// expected value. The input's URL parse and the resolver's answer for the
/// extracted domain determine the result completely:
/// - the input does not parse: `UrlParseError` with the parser's message;
/// - it parses but has no domain name: `NoDomainInUrl`, and no lookup
///   decides anything;
/// - the lookup fails: `DnsResolutionError` with the resolver's message;
/// - the lookup succeeds: `Ok` of whether any returned character-string
///   equals the expected value.
pub open spec fn check_result_spec<R: TxtResolver>(
    resolver: &R,
    input: Seq<char>,
    expected: Seq<char>,
    r: Result<bool, TxtRecordError>,
) -> bool {
    match r {
        Ok(found) => url_parse_of(input) matches Ok(Some(d))
            && resolver.txt_of(d) matches Ok(recs)
            && found == set_matches(recs, expected),
        Err(TxtRecordError::UrlParseError(m)) => url_parse_of(input) matches Err(mm) && mm == m@,
        Err(TxtRecordError::NoDomainInUrl) => url_parse_of(input) matches Ok(None),
        Err(TxtRecordError::DnsResolutionError(m)) => url_parse_of(input) matches Ok(Some(d))
            && resolver.txt_of(d) matches Err(mm)
            && mm == m@,
    }
}

/// Check whether the domain behind `domain_url` publishes a TXT record
/// whose text equals `expected_record` exactly.
///
/// The stages run strictly in order — normalize the input, query the
/// resolver, scan the records — and each failure point is terminal: a
/// rejected input never reaches the resolver, and a failed lookup never
/// reaches the matcher. `Ok(true)` means a record matched, `Ok(false)`
/// means the lookup succeeded but no record matched; neither is an error.
pub fn check_txt_record<R: TxtResolver>(
    resolver: &R,
    domain_url: &str,
    expected_record: &str,
) -> (r: Result<bool, TxtRecordError>)
    ensures
        check_result_spec(resolver, domain_url@, expected_record@, r),
{
    let domain = match normalize(domain_url) {
        Ok(d) => d,
        Err(e) => {
            return Err(e);
        },
    };
    let outcome = resolver.lookup_txt(domain.as_str());
    check_lookup_outcome(outcome, expected_record)
}

} // verus!
