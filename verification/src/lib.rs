//! Verified checking of DNS TXT records for domain ownership.
//!
//! Given a URL string and an expected TXT value, the library extracts the
//! domain, asks an injected resolver for the domain's TXT records, and
//! decides whether any returned character-string equals the expected value
//! exactly. Input normalization, record matching and the orchestration are
//! verified; the DNS query itself is performed by the resolver the caller
//! supplies.

pub mod check;
pub mod error;
pub mod laws;
pub mod normalize;
pub mod records;
pub mod resolver;

pub use check::check_lookup_outcome;
pub use check::check_txt_record;
pub use error::TxtRecordError;
pub use normalize::normalize;
pub use records::set_has_match;
pub use records::txt_record_matches;
pub use records::TxtRecord;
pub use records::TxtRecordSet;
pub use resolver::StaticResolver;
pub use resolver::TxtResolver;
