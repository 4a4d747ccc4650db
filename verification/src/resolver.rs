use vstd::prelude::*;

use crate::records::TxtRecord;
use crate::records::TxtRecordSet;

verus! {

/// A DNS resolution capability, injected by the caller and shared across
/// checks. The one operation it offers is a TXT query for a domain.
///
/// `txt_of` is the resolver's model: the answer the zone it queries gives
/// for each domain — either the TXT record set or the description of a
/// failure (NXDOMAIN, timeout, network error, ...). As long as the zone is
/// unchanged, the model is unchanged, and `lookup_txt` must answer
/// according to it; this is what makes repeated checks against an unchanged
/// zone return the same result.
///
/// A resolver written outside the verifier's view can leave `txt_of` at its
/// default; verified reasoning about such a resolver then rests on its
/// unverified `lookup_txt` honouring the answer-per-domain discipline.
pub trait TxtResolver {
    /// The answer the resolver's zone gives for `domain`.
    open spec fn txt_of(&self, domain: Seq<char>) -> Result<Seq<Seq<Seq<u8>>>, Seq<char>> {
        Err(Seq::empty())
    }

    /// Issue a TXT query for `domain` and return the records found, or the
    /// description of the failure.
    fn lookup_txt(&self, domain: &str) -> (r: Result<TxtRecordSet, String>)
        ensures
            match r {
                Ok(rs) => self.txt_of(domain@) matches Ok(m) && m == rs@,
                Err(e) => self.txt_of(domain@) matches Err(m) && m == e@,
            },
    ;
}

/// A deep copy of one byte string.
fn copy_bytes(v: &Vec<u8>) -> (r: Vec<u8>)
    ensures
        r@ == v@,
{
    let n = v.len();
    let mut r: Vec<u8> = Vec::new();
    let mut i: usize = 0;
    while i < n
        invariant
            n == v@.len(),
            i <= n,
            r@ == v@.subrange(0, i as int),
        decreases n - i,
    {
        r.push(v[i]);
        assert(r@ =~= v@.subrange(0, (i + 1) as int));
        i += 1;
    }
    assert(r@ =~= v@);
    r
}

/// A deep copy of one TXT record.
fn copy_record(rec: &TxtRecord) -> (r: TxtRecord)
    ensures
        r@ == rec@,
{
    let n = rec.strings.len();
    let mut strings: Vec<Vec<u8>> = Vec::new();
    let mut i: usize = 0;
    while i < n
        invariant
            n == rec.strings@.len(),
            i <= n,
            strings@.len() == i,
            forall|k: int| 0 <= k < i ==> strings@[k]@ == rec.strings@[k]@,
        decreases n - i,
    {
        strings.push(copy_bytes(&rec.strings[i]));
        i += 1;
    }
    let r = TxtRecord { strings };
    assert(r@ =~= rec@);
    r
}

/// A deep copy of a record set.
fn copy_record_set(set_in: &TxtRecordSet) -> (r: TxtRecordSet)
    ensures
        r@ == set_in@,
{
    let n = set_in.records.len();
    let mut records: Vec<TxtRecord> = Vec::new();
    let mut i: usize = 0;
    while i < n
        invariant
            n == set_in.records@.len(),
            i <= n,
            records@.len() == i,
            forall|k: int| 0 <= k < i ==> records@[k]@ == set_in.records@[k]@,
        decreases n - i,
    {
        records.push(copy_record(&set_in.records[i]));
        i += 1;
    }
    let r = TxtRecordSet { records };
    assert(r@ =~= set_in@);
    r
}

/// A resolver with a fixed answer: every domain gets the stored record set
/// or the stored failure. It stands in for a zone in tests and lets the
/// matching and orchestration logic be exercised without any network.
pub struct StaticResolver {
    pub answer: Result<TxtRecordSet, String>,
}

impl TxtResolver for StaticResolver {
    open spec fn txt_of(&self, domain: Seq<char>) -> Result<Seq<Seq<Seq<u8>>>, Seq<char>> {
        match self.answer {
            Ok(rs) => Ok(rs@),
            Err(e) => Err(e@),
        }
    }

    fn lookup_txt(&self, domain: &str) -> (r: Result<TxtRecordSet, String>) {
        match &self.answer {
            Ok(rs) => Ok(copy_record_set(rs)),
            Err(e) => Err(e.clone()),
        }
    }
}

} // verus!
