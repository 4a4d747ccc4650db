use vstd::prelude::*;

use crate::check::check_result_spec;
use crate::error::error_equiv;
use crate::error::TxtRecordError;
use crate::normalize::url_parse_of;
use crate::records::lossy_utf8;
use crate::records::record_matches;
use crate::records::set_matches;
use crate::resolver::TxtResolver;

verus! {

/// Two check results are equivalent when they are the same verdict, or the
/// same failure with the same description.
pub open spec fn result_equiv(
    a: Result<bool, TxtRecordError>,
    b: Result<bool, TxtRecordError>,
) -> bool {
    match (a, b) {
        (Ok(x), Ok(y)) => x == y,
        (Err(e1), Err(e2)) => error_equiv(e1, e2),
        _ => false,
    }
}

/// If the input yields a domain, the lookup succeeds, and some returned
/// character-string decodes to exactly the expected value, then the check
/// reports the record as found.
pub proof fn lemma_match_is_found<R: TxtResolver>(
    resolver: &R,
    input: Seq<char>,
    expected: Seq<char>,
    d: Seq<char>,
    recs: Seq<Seq<Seq<u8>>>,
    r: Result<bool, TxtRecordError>,
)
    requires
        check_result_spec(resolver, input, expected, r),
        url_parse_of(input) == Ok::<Option<Seq<char>>, Seq<char>>(Some(d)),
        resolver.txt_of(d) == Ok::<Seq<Seq<Seq<u8>>>, Seq<char>>(recs),
        exists|i: int, j: int|
            0 <= i < recs.len() && 0 <= j < recs[i].len() && lossy_utf8(recs[i][j]) == expected,
    ensures
        r == Ok::<bool, TxtRecordError>(true),
{
    let (i, j) = choose|i: int, j: int|
        0 <= i < recs.len() && 0 <= j < recs[i].len() && lossy_utf8(recs[i][j]) == expected;
    assert(record_matches(recs[i], expected));
    assert(set_matches(recs, expected));
}

/// If the input yields a domain and the lookup succeeds, but no returned
/// character-string decodes to the expected value, the check reports the
/// record as not found — a successful negative answer, not an error.
pub proof fn lemma_no_match_is_not_found<R: TxtResolver>(
    resolver: &R,
    input: Seq<char>,
    expected: Seq<char>,
    d: Seq<char>,
    recs: Seq<Seq<Seq<u8>>>,
    r: Result<bool, TxtRecordError>,
)
    requires
        check_result_spec(resolver, input, expected, r),
        url_parse_of(input) == Ok::<Option<Seq<char>>, Seq<char>>(Some(d)),
        resolver.txt_of(d) == Ok::<Seq<Seq<Seq<u8>>>, Seq<char>>(recs),
        recs.len() > 0,
        forall|i: int, j: int|
            0 <= i < recs.len() && 0 <= j < recs[i].len() ==> lossy_utf8(recs[i][j]) != expected,
    ensures
        r == Ok::<bool, TxtRecordError>(false),
{
    assert(!set_matches(recs, expected)) by {
        if set_matches(recs, expected) {
            let i = choose|i: int| 0 <= i < recs.len() && record_matches(recs[i], expected);
            let j = choose|j: int| 0 <= j < recs[i].len() && lossy_utf8(recs[i][j]) == expected;
            assert(lossy_utf8(recs[i][j]) != expected);
        }
    }
}

/// If the input yields a domain and the lookup succeeds with zero records,
/// the check reports the record as not found, not a resolution failure.
pub proof fn lemma_empty_is_not_found<R: TxtResolver>(
    resolver: &R,
    input: Seq<char>,
    expected: Seq<char>,
    d: Seq<char>,
    recs: Seq<Seq<Seq<u8>>>,
    r: Result<bool, TxtRecordError>,
)
    requires
        check_result_spec(resolver, input, expected, r),
        url_parse_of(input) == Ok::<Option<Seq<char>>, Seq<char>>(Some(d)),
        resolver.txt_of(d) == Ok::<Seq<Seq<Seq<u8>>>, Seq<char>>(recs),
        recs.len() == 0,
    ensures
        r == Ok::<bool, TxtRecordError>(false),
{
    assert(!set_matches(recs, expected)) by {
        if set_matches(recs, expected) {
            let i = choose|i: int| 0 <= i < recs.len() && record_matches(recs[i], expected);
            assert(false);
        }
    }
}

/// If the input does not parse as a URL, the check fails with
/// `UrlParseError` carrying the parser's message — whatever the resolver
/// and the zone hold, so no lookup influences the result.
pub proof fn lemma_invalid_input_is_rejected<R: TxtResolver>(
    resolver: &R,
    input: Seq<char>,
    expected: Seq<char>,
    m: Seq<char>,
    r: Result<bool, TxtRecordError>,
)
    requires
        check_result_spec(resolver, input, expected, r),
        url_parse_of(input) == Err::<Option<Seq<char>>, Seq<char>>(m),
    ensures
        r matches Err(TxtRecordError::UrlParseError(mm)) && mm@ == m,
{
}

/// If the input yields a domain but the lookup fails, the failure is
/// propagated as `DnsResolutionError` with the resolver's description, and
/// no match verdict is produced.
pub proof fn lemma_lookup_failure_propagates<R: TxtResolver>(
    resolver: &R,
    input: Seq<char>,
    expected: Seq<char>,
    d: Seq<char>,
    em: Seq<char>,
    r: Result<bool, TxtRecordError>,
)
    requires
        check_result_spec(resolver, input, expected, r),
        url_parse_of(input) == Ok::<Option<Seq<char>>, Seq<char>>(Some(d)),
        resolver.txt_of(d) == Err::<Seq<Seq<Seq<u8>>>, Seq<char>>(em),
    ensures
        r matches Err(TxtRecordError::DnsResolutionError(mm)) && mm@ == em,
{
}

/// Repeated checks with identical arguments against an unchanged zone
/// return the same result: the contract of `check_txt_record` pins the
/// outcome as a function of the resolver's model and the two inputs.
pub proof fn lemma_check_is_idempotent<R: TxtResolver>(
    resolver: &R,
    input: Seq<char>,
    expected: Seq<char>,
    r1: Result<bool, TxtRecordError>,
    r2: Result<bool, TxtRecordError>,
)
    requires
        check_result_spec(resolver, input, expected, r1),
        check_result_spec(resolver, input, expected, r2),
    ensures
        result_equiv(r1, r2),
{
}

} // verus!
