use vstd::prelude::*;

verus! {

/// One TXT resource record: the character-strings it carries. A single DNS
/// TXT record can pack several character-strings, and each is an arbitrary
/// byte string, not necessarily valid UTF-8.
#[derive(Debug)]
pub struct TxtRecord {
    pub strings: Vec<Vec<u8>>,
}

impl View for TxtRecord {
    type V = Seq<Seq<u8>>;

    open spec fn view(&self) -> Seq<Seq<u8>> {
        Seq::new(self.strings@.len(), |i: int| self.strings@[i]@)
    }
}

/// The ordered sequence of TXT records a resolver returned for one domain.
/// The order is whatever the resolver produced; matching does not depend on
/// it beyond scanning in that order.
#[derive(Debug)]
pub struct TxtRecordSet {
    pub records: Vec<TxtRecord>,
}

impl View for TxtRecordSet {
    type V = Seq<Seq<Seq<u8>>>;

    open spec fn view(&self) -> Seq<Seq<Seq<u8>>> {
        Seq::new(self.records@.len(), |i: int| self.records@[i]@)
    }
}

/// The characters that lossy UTF-8 decoding yields for the given bytes:
/// invalid sequences come out as replacement characters instead of failing,
/// so arbitrary TXT data can always be compared as text.
pub uninterp spec fn lossy_utf8(bytes: Seq<u8>) -> Seq<char>;

/// Relies on std's `String::from_utf8_lossy`: the decoding is a function of
/// the bytes alone.
#[verifier::external_body]
fn decode_lossy(bytes: &Vec<u8>) -> (r: String)
    ensures
        r@ == lossy_utf8(bytes@),
{
    String::from_utf8_lossy(bytes).into_owned()
}

/// Whether some character-string of the record decodes to exactly `expected`.
pub open spec fn record_matches(rec: Seq<Seq<u8>>, expected: Seq<char>) -> bool {
    exists|j: int| 0 <= j < rec.len() && lossy_utf8(rec[j]) == expected
}

/// Whether some record in the set carries a character-string that decodes to
/// exactly `expected`.
pub open spec fn set_matches(records: Seq<Seq<Seq<u8>>>, expected: Seq<char>) -> bool {
    exists|i: int| 0 <= i < records.len() && record_matches(records[i], expected)
}

/// Does any character-string of this record equal `expected`?
///
/// Each character-string is decoded lossily and compared for exact,
/// case-sensitive equality: no trimming, no case folding, no substring
/// matching.
pub fn txt_record_matches(rec: &TxtRecord, expected: &String) -> (r: bool)
    ensures
        r == record_matches(rec@, expected@),
{
    let n = rec.strings.len();
    let mut j: usize = 0;
    while j < n
        invariant
            n == rec.strings@.len(),
            j <= n,
            forall|j2: int| 0 <= j2 < j ==> lossy_utf8(rec@[j2]) != expected@,
        decreases n - j,
    {
        let decoded = decode_lossy(&rec.strings[j]);
        if decoded == *expected {
            assert(lossy_utf8(rec@[j as int]) == expected@);
            return true;
        }
        j += 1;
    }
    false
}

/// Does any record in the set carry a character-string equal to `expected`?
///
/// Scans the records in the order the resolver returned them and stops at
/// the first match. An empty set, or a set with no matching string, gives
/// `false`; that is a successful negative answer, not an error.
pub fn set_has_match(records: &TxtRecordSet, expected: &str) -> (r: bool)
    ensures
        r == set_matches(records@, expected@),
{
    let expected_owned: String = expected.to_owned();
    let n = records.records.len();
    let mut i: usize = 0;
    while i < n
        invariant
            n == records.records@.len(),
            i <= n,
            expected_owned@ == expected@,
            forall|i2: int| 0 <= i2 < i ==> !record_matches(records@[i2], expected@),
        decreases n - i,
    {
        if txt_record_matches(&records.records[i], &expected_owned) {
            assert(record_matches(records@[i as int], expected@));
            return true;
        }
        i += 1;
    }
    false
}

} // verus!
