//! A model of the "release notes" record of an SBOM interchange format:
//! a closed release-type classification with its wire-token bijection, a
//! language-tagged text pair, and the aggregate record with validated
//! optional fields (IRI-valued images, an RFC 3339 timestamp with its
//! original UTC offset, and ordered optional collections).

use vstd::prelude::*;

pub mod iri;
pub mod issue;
pub mod localized_string;
pub mod notes;
pub mod release_type;
pub mod timestamp;

pub use iri::Iri;
pub use issue::Issue;
pub use localized_string::LocalizedString;
pub use notes::ReleaseNotes;
pub use release_type::ReleaseType;
pub use timestamp::Timestamp;

verus! {

/// Why a supplied value was rejected while building a record.
#[derive(Clone, Copy, Debug, PartialEq, Eq, Structural)]
pub enum ConversionError {
    /// The token is not in the closed release-type vocabulary.
    InvalidReleaseType,
    /// The text does not satisfy the IRI reference grammar.
    InvalidIri,
    /// The text is not an RFC 3339 date-time with a UTC offset.
    InvalidTimestamp,
}

} // verus!
