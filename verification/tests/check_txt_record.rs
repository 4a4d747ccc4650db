use txt_record_check::check_lookup_outcome;
use txt_record_check::check_txt_record;
use txt_record_check::normalize;
use txt_record_check::set_has_match;
use txt_record_check::txt_record_matches;
use txt_record_check::StaticResolver;
use txt_record_check::TxtRecord;
use txt_record_check::TxtRecordError;
use txt_record_check::TxtRecordSet;

fn record(strings: &[&[u8]]) -> TxtRecord {
    TxtRecord { strings: strings.iter().map(|s| s.to_vec()).collect() }
}

fn set_of(records: Vec<TxtRecord>) -> TxtRecordSet {
    TxtRecordSet { records }
}

fn stub_with_records(records: Vec<TxtRecord>) -> StaticResolver {
    StaticResolver { answer: Ok(set_of(records)) }
}

fn stub_failing(message: &str) -> StaticResolver {
    StaticResolver { answer: Err(message.to_string()) }
}

#[test]
fn found_when_a_record_matches() {
    let resolver = stub_with_records(vec![
        record(&[b"v=spf1 -all"]),
        record(&[b"site-verification=abc123"]),
    ]);
    let r = check_txt_record(&resolver, "https://example.com", "site-verification=abc123");
    assert!(matches!(r, Ok(true)));
}

#[test]
fn not_found_when_no_record_matches() {
    let resolver = stub_with_records(vec![
        record(&[b"v=spf1 -all"]),
        record(&[b"site-verification=abc123"]),
    ]);
    let r = check_txt_record(&resolver, "https://example.com", "site-verification=zzz");
    assert!(matches!(r, Ok(false)));
}

#[test]
fn not_found_when_record_set_is_empty() {
    let resolver = stub_with_records(vec![]);
    let r = check_txt_record(&resolver, "https://example.com", "anything");
    assert!(matches!(r, Ok(false)));
}

#[test]
fn matching_is_case_sensitive() {
    let resolver = stub_with_records(vec![record(&[b"foo"])]);
    let r = check_txt_record(&resolver, "https://example.com", "Foo");
    assert!(matches!(r, Ok(false)));

    let rec = record(&[b"foo"]);
    assert!(!txt_record_matches(&rec, &"Foo".to_string()));
    assert!(txt_record_matches(&rec, &"foo".to_string()));
}

#[test]
fn malformed_input_never_reaches_the_resolver() {
    // The stub would report a match, but the malformed input must be
    // rejected before any lookup result can influence the outcome.
    let resolver = stub_with_records(vec![record(&[b"match-me"])]);
    let r = check_txt_record(&resolver, "not a url", "match-me");
    assert!(matches!(r, Err(TxtRecordError::UrlParseError(_))));
}

#[test]
fn bare_hostname_is_rejected() {
    let resolver = stub_with_records(vec![record(&[b"match-me"])]);
    let r = check_txt_record(&resolver, "rotko.net", "match-me");
    assert!(matches!(r, Err(TxtRecordError::UrlParseError(_))));
}

#[test]
fn ip_address_host_has_no_domain() {
    let resolver = stub_with_records(vec![record(&[b"match-me"])]);
    let r = check_txt_record(&resolver, "https://127.0.0.1/", "match-me");
    assert!(matches!(r, Err(TxtRecordError::NoDomainInUrl)));
}

#[test]
fn url_without_host_has_no_domain() {
    let resolver = stub_with_records(vec![record(&[b"match-me"])]);
    let r = check_txt_record(&resolver, "mailto:rms@example.net", "match-me");
    assert!(matches!(r, Err(TxtRecordError::NoDomainInUrl)));
}

#[test]
fn resolver_failure_is_propagated() {
    let resolver = stub_failing("request timed out");
    let r = check_txt_record(&resolver, "https://example.com", "anything");
    match r {
        Err(TxtRecordError::DnsResolutionError(m)) => assert_eq!(m, "request timed out"),
        other => panic!("expected DnsResolutionError, got {:?}", other),
    }
}

#[test]
fn describe_carries_the_cause() {
    let resolver = stub_failing("no records found");
    let r = check_txt_record(&resolver, "https://example.com", "anything");
    match r {
        Err(e) => assert_eq!(e.describe(), "no records found"),
        other => panic!("expected an error, got {:?}", other),
    }
}

#[test]
fn published_record_scenario() {
    let resolver = stub_with_records(vec![record(&[
        b"protonmail-verification=5efb90a51528f16d9ae4a23dd5faa9d5fa0a9221",
    ])]);
    let found = check_txt_record(
        &resolver,
        "https://rotko.net",
        "protonmail-verification=5efb90a51528f16d9ae4a23dd5faa9d5fa0a9221",
    );
    assert!(matches!(found, Ok(true)));

    let not_found = check_txt_record(
        &resolver,
        "https://rotko.net",
        "e747830ab59ba99d4817ff11291811e6",
    );
    assert!(matches!(not_found, Ok(false)));
}

#[test]
fn repeated_calls_return_the_same_result() {
    let resolver = stub_with_records(vec![record(&[b"stable-answer"])]);
    let first = check_txt_record(&resolver, "https://example.com", "stable-answer");
    let second = check_txt_record(&resolver, "https://example.com", "stable-answer");
    assert!(matches!(first, Ok(true)));
    assert!(matches!(second, Ok(true)));

    let first_neg = check_txt_record(&resolver, "https://example.com", "other");
    let second_neg = check_txt_record(&resolver, "https://example.com", "other");
    assert!(matches!(first_neg, Ok(false)));
    assert!(matches!(second_neg, Ok(false)));
}

#[test]
fn normalize_extracts_the_host_only() {
    let d = normalize("https://user:pw@sub.example.com:8080/path?q=1#frag");
    match d {
        Ok(domain) => assert_eq!(domain, "sub.example.com"),
        other => panic!("expected a domain, got {:?}", other),
    }
}

#[test]
fn normalize_rejects_a_missing_scheme() {
    let r = normalize("example.com/path");
    assert!(matches!(r, Err(TxtRecordError::UrlParseError(_))));
}

#[test]
fn invalid_utf8_is_decoded_lossily() {
    // 0xFF and 0xFE are not valid UTF-8; each decodes to one replacement
    // character, so the record still takes part in matching.
    let rec = record(&[&[0xFF, 0xFE]]);
    assert!(txt_record_matches(&rec, &"\u{FFFD}\u{FFFD}".to_string()));
    assert!(!txt_record_matches(&rec, &"\u{FFFD}".to_string()));
}

#[test]
fn each_character_string_is_compared_separately() {
    // One TXT record carrying several character-strings: any one of them
    // may be the match.
    let resolver = stub_with_records(vec![record(&[b"first-part", b"second-part"])]);
    let r = check_txt_record(&resolver, "https://example.com", "second-part");
    assert!(matches!(r, Ok(true)));
}

#[test]
fn lookup_outcome_decides_the_check() {
    let found = check_lookup_outcome(Ok(set_of(vec![record(&[b"v"])])), "v");
    assert!(matches!(found, Ok(true)));

    let none = check_lookup_outcome(Ok(set_of(vec![])), "v");
    assert!(matches!(none, Ok(false)));

    let failed = check_lookup_outcome(Err("NXDOMAIN".to_string()), "v");
    match failed {
        Err(TxtRecordError::DnsResolutionError(m)) => assert_eq!(m, "NXDOMAIN"),
        other => panic!("expected DnsResolutionError, got {:?}", other),
    }
}

#[test]
fn a_match_in_a_later_record_is_found() {
    let set = set_of(vec![
        record(&[b"unrelated"]),
        record(&[]),
        record(&[b"the-target"]),
    ]);
    assert!(set_has_match(&set, "the-target"));
    assert!(!set_has_match(&set, "missing"));
}
