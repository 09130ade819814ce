//! The aggregate release-notes record: a required release type and nine
//! optional fields whose presence is meaningful — an absent collection is
//! distinct from an empty one.

use vstd::prelude::*;

use crate::ConversionError;
use crate::iri::{Iri, is_iri_reference};
use crate::issue::Issue;
use crate::localized_string::LocalizedString;
use crate::release_type::ReleaseType;
use crate::timestamp::{Timestamp, spec_parse_rfc3339};

verus! {

/// Structural equality of optional text: both absent, or both present with
/// the same characters.
pub open spec fn opt_text_eq(a: Option<String>, b: Option<String>) -> bool {
    match (a, b) {
        (Option::None, Option::None) => true,
        (Option::Some(x), Option::Some(y)) => x@ == y@,
        _ => false,
    }
}

/// Structural equality of optional IRI references.
pub open spec fn opt_iri_eq(a: Option<Iri>, b: Option<Iri>) -> bool {
    match (a, b) {
        (Option::None, Option::None) => true,
        (Option::Some(x), Option::Some(y)) => x@ == y@,
        _ => false,
    }
}

/// Structural equality of text sequences: same length, same characters in
/// the same order.
pub open spec fn texts_eq(a: Seq<String>, b: Seq<String>) -> bool {
    a.len() == b.len() && (forall|i: int| 0 <= i < a.len() ==> a[i]@ == b[i]@)
}

/// Structural equality of optional text sequences; an absent sequence is
/// distinct from an empty one.
pub open spec fn opt_texts_eq(a: Option<Vec<String>>, b: Option<Vec<String>>) -> bool {
    match (a, b) {
        (Option::None, Option::None) => true,
        (Option::Some(x), Option::Some(y)) => texts_eq(x@, y@),
        _ => false,
    }
}

/// Structural equality of issue-reference sequences.
pub open spec fn issues_eq(a: Seq<Issue>, b: Seq<Issue>) -> bool {
    a.len() == b.len() && (forall|i: int| 0 <= i < a.len() ==> a[i].id@ == b[i].id@)
}

/// Structural equality of optional issue-reference sequences.
pub open spec fn opt_issues_eq(a: Option<Vec<Issue>>, b: Option<Vec<Issue>>) -> bool {
    match (a, b) {
        (Option::None, Option::None) => true,
        (Option::Some(x), Option::Some(y)) => issues_eq(x@, y@),
        _ => false,
    }
}

/// Structural equality of localized-text sequences, in insertion order.
pub open spec fn notes_eq(a: Seq<LocalizedString>, b: Seq<LocalizedString>) -> bool {
    a.len() == b.len() && (forall|i: int|
        0 <= i < a.len() ==> a[i].locale@ == b[i].locale@ && a[i].text@ == b[i].text@)
}

/// Structural equality of optional localized-text sequences.
pub open spec fn opt_notes_eq(a: Option<Vec<LocalizedString>>, b: Option<Vec<LocalizedString>>) -> bool {
    match (a, b) {
        (Option::None, Option::None) => true,
        (Option::Some(x), Option::Some(y)) => notes_eq(x@, y@),
        _ => false,
    }
}

/// Structural equality of optional timestamps, offset included: a timestamp
/// differing only in its UTC offset is a different value.
pub open spec fn opt_timestamp_eq(a: Option<Timestamp>, b: Option<Timestamp>) -> bool {
    match (a, b) {
        (Option::None, Option::None) => true,
        (Option::Some(x), Option::Some(y)) => x@ == y@,
        _ => false,
    }
}

/// Metadata describing a software release. Every field but `release_type`
/// is optional, and presence is meaningful: a field given as an empty
/// collection is a different value than an absent field, and both survive a
/// round trip through the serialization layer unchanged.
#[derive(Clone, Debug)]
pub struct ReleaseNotes {
    /// How significant the release is; a record built without one counts as
    /// a minor release.
    pub release_type: ReleaseType,
    pub title: Option<String>,
    /// A validated IRI reference to the release's featured image.
    pub featured_image: Option<Iri>,
    /// A validated IRI reference to the release's social-media image.
    pub social_image: Option<Iri>,
    pub description: Option<String>,
    /// When the release happened, with the UTC offset it was written with.
    pub timestamp: Option<Timestamp>,
    /// Alternate names for the release, in the order they were given.
    pub aliases: Option<Vec<String>>,
    /// Free-form classification tags, in the order they were given.
    pub tags: Option<Vec<String>>,
    /// References to externally owned issue records.
    pub issues: Option<Vec<Issue>>,
    /// Localized renditions of the notes, in insertion order; repeated
    /// locales are kept, not deduplicated.
    pub notes: Option<Vec<LocalizedString>>,
}

fn opt_string_eq(a: &Option<String>, b: &Option<String>) -> (r: bool)
    ensures
        r == opt_text_eq(*a, *b),
{
    match (a, b) {
        (Option::None, Option::None) => true,
        (Option::Some(x), Option::Some(y)) => *x == *y,
        _ => false,
    }
}

fn opt_iri_ref_eq(a: &Option<Iri>, b: &Option<Iri>) -> (r: bool)
    ensures
        r == opt_iri_eq(*a, *b),
{
    match (a, b) {
        (Option::None, Option::None) => true,
        (Option::Some(x), Option::Some(y)) => x == y,
        _ => false,
    }
}

fn vec_string_eq(a: &Vec<String>, b: &Vec<String>) -> (r: bool)
    ensures
        r == texts_eq(a@, b@),
{
    if a.len() != b.len() {
        return false;
    }
    let mut i: usize = 0;
    while i < a.len()
        invariant
            i <= a@.len(),
            a@.len() == b@.len(),
            forall|j: int| 0 <= j < i ==> a@[j]@ == b@[j]@,
        decreases a@.len() - i,
    {
        if !(a[i] == b[i]) {
            return false;
        }
        i += 1;
    }
    true
}

fn opt_vec_string_eq(a: &Option<Vec<String>>, b: &Option<Vec<String>>) -> (r: bool)
    ensures
        r == opt_texts_eq(*a, *b),
{
    match (a, b) {
        (Option::None, Option::None) => true,
        (Option::Some(x), Option::Some(y)) => vec_string_eq(x, y),
        _ => false,
    }
}

fn vec_issue_eq(a: &Vec<Issue>, b: &Vec<Issue>) -> (r: bool)
    ensures
        r == issues_eq(a@, b@),
{
    if a.len() != b.len() {
        return false;
    }
    let mut i: usize = 0;
    while i < a.len()
        invariant
            i <= a@.len(),
            a@.len() == b@.len(),
            forall|j: int| 0 <= j < i ==> a@[j].id@ == b@[j].id@,
        decreases a@.len() - i,
    {
        if !(a[i] == b[i]) {
            return false;
        }
        i += 1;
    }
    true
}

fn opt_vec_issue_eq(a: &Option<Vec<Issue>>, b: &Option<Vec<Issue>>) -> (r: bool)
    ensures
        r == opt_issues_eq(*a, *b),
{
    match (a, b) {
        (Option::None, Option::None) => true,
        (Option::Some(x), Option::Some(y)) => vec_issue_eq(x, y),
        _ => false,
    }
}

fn vec_notes_eq(a: &Vec<LocalizedString>, b: &Vec<LocalizedString>) -> (r: bool)
    ensures
        r == notes_eq(a@, b@),
{
    if a.len() != b.len() {
        return false;
    }
    let mut i: usize = 0;
    while i < a.len()
        invariant
            i <= a@.len(),
            a@.len() == b@.len(),
            forall|j: int| 0 <= j < i ==> a@[j].locale@ == b@[j].locale@ && a@[j].text@ == b@[j].text@,
        decreases a@.len() - i,
    {
        if !(a[i] == b[i]) {
            return false;
        }
        i += 1;
    }
    true
}

fn opt_vec_notes_eq(a: &Option<Vec<LocalizedString>>, b: &Option<Vec<LocalizedString>>) -> (r:
    bool)
    ensures
        r == opt_notes_eq(*a, *b),
{
    match (a, b) {
        (Option::None, Option::None) => true,
        (Option::Some(x), Option::Some(y)) => vec_notes_eq(x, y),
        _ => false,
    }
}

fn opt_ts_eq(a: &Option<Timestamp>, b: &Option<Timestamp>) -> (r: bool)
    ensures
        r == opt_timestamp_eq(*a, *b),
{
    match (a, b) {
        (Option::None, Option::None) => true,
        (Option::Some(x), Option::Some(y)) => {
            proof {
                crate::timestamp::lemma_timestamp_eq_is_view_eq(*x, *y);
            }
            *x == *y
        },
        _ => false,
    }
}

impl PartialEq for ReleaseNotes {
    fn eq(&self, other: &Self) -> (r: bool) {
        self.release_type == other.release_type && opt_string_eq(&self.title, &other.title)
            && opt_iri_ref_eq(&self.featured_image, &other.featured_image) && opt_iri_ref_eq(
            &self.social_image,
            &other.social_image,
        ) && opt_string_eq(&self.description, &other.description) && opt_ts_eq(
            &self.timestamp,
            &other.timestamp,
        ) && opt_vec_string_eq(&self.aliases, &other.aliases) && opt_vec_string_eq(
            &self.tags,
            &other.tags,
        ) && opt_vec_issue_eq(&self.issues, &other.issues) && opt_vec_notes_eq(
            &self.notes,
            &other.notes,
        )
    }
}

impl Eq for ReleaseNotes {

}

impl vstd::std_specs::cmp::PartialEqSpecImpl for ReleaseNotes {
    open spec fn obeys_eq_spec() -> bool {
        true
    }

    /// Equality is structural over all ten fields, distinguishing an absent
    /// field from a present-but-empty one, and comparing a timestamp's UTC
    /// offset along with its instant.
    open spec fn eq_spec(&self, other: &Self) -> bool {
        &&& self.release_type == other.release_type
        &&& opt_text_eq(self.title, other.title)
        &&& opt_iri_eq(self.featured_image, other.featured_image)
        &&& opt_iri_eq(self.social_image, other.social_image)
        &&& opt_text_eq(self.description, other.description)
        &&& opt_timestamp_eq(self.timestamp, other.timestamp)
        &&& opt_texts_eq(self.aliases, other.aliases)
        &&& opt_texts_eq(self.tags, other.tags)
        &&& opt_issues_eq(self.issues, other.issues)
        &&& opt_notes_eq(self.notes, other.notes)
    }
}

impl ReleaseNotes {
    /// A record with no optional field set: every optional field is absent
    /// (not an empty collection) and the release type is the default,
    /// `Minor`.
    pub fn new() -> (r: ReleaseNotes)
        ensures
            r.release_type == ReleaseType::Minor,
            r.title is None,
            r.featured_image is None,
            r.social_image is None,
            r.description is None,
            r.timestamp is None,
            r.aliases is None,
            r.tags is None,
            r.issues is None,
            r.notes is None,
    {
        ReleaseNotes {
            release_type: ReleaseType::Minor,
            title: None,
            featured_image: None,
            social_image: None,
            description: None,
            timestamp: None,
            aliases: None,
            tags: None,
            issues: None,
            notes: None,
        }
    }

    /// Sets the release type; every other field keeps its value.
    pub fn set_release_type(&mut self, release_type: ReleaseType)
        ensures
            final(self).release_type == release_type,
            (*final(self) == ReleaseNotes { release_type: final(self).release_type, ..*old(self) }),
    {
        self.release_type = release_type;
    }

    /// Sets the title to the supplied text; every other field keeps its
    /// value.
    pub fn set_title(&mut self, title: String)
        ensures
            final(self).title matches Some(t) && t@ == title@,
            (*final(self) == ReleaseNotes { title: final(self).title, ..*old(self) }),
    {
        self.title = Some(title);
    }

    /// Sets the description to the supplied text; every other field keeps
    /// its value.
    pub fn set_description(&mut self, description: String)
        ensures
            final(self).description matches Some(t) && t@ == description@,
            (*final(self) == ReleaseNotes { description: final(self).description, ..*old(self) }),
    {
        self.description = Some(description);
    }

    /// Validates the supplied text as an IRI reference and sets the featured
    /// image to it. Invalid text is rejected with `InvalidIri` and the record
    /// is left unchanged; no other field is touched either way.
    pub fn set_featured_image(&mut self, image: String) -> (r: Result<(), ConversionError>)
        ensures
            r is Ok <==> is_iri_reference(image@),
            r matches Err(e) ==> e == ConversionError::InvalidIri && *final(self) == *old(self),
            r is Ok ==> (final(self).featured_image matches Some(i) && i@ == image@),
            r is Ok ==> (*final(self) == ReleaseNotes {
                featured_image: final(self).featured_image,
                ..*old(self)
            }),
    {
        match Iri::new(image) {
            Ok(iri) => {
                self.featured_image = Some(iri);
                Ok(())
            },
            Err(e) => Err(e),
        }
    }

    /// Validates the supplied text as an IRI reference and sets the social
    /// image to it. Invalid text is rejected with `InvalidIri` and the record
    /// is left unchanged; no other field is touched either way.
    pub fn set_social_image(&mut self, image: String) -> (r: Result<(), ConversionError>)
        ensures
            r is Ok <==> is_iri_reference(image@),
            r matches Err(e) ==> e == ConversionError::InvalidIri && *final(self) == *old(self),
            r is Ok ==> (final(self).social_image matches Some(i) && i@ == image@),
            r is Ok ==> (*final(self) == ReleaseNotes {
                social_image: final(self).social_image,
                ..*old(self)
            }),
    {
        match Iri::new(image) {
            Ok(iri) => {
                self.social_image = Some(iri);
                Ok(())
            },
            Err(e) => Err(e),
        }
    }

    /// Parses the supplied text as an RFC 3339 date-time with offset and
    /// sets the timestamp to it, keeping the offset exactly as written.
    /// Unparsable text is rejected with `InvalidTimestamp` and the record is
    /// left unchanged; no other field is touched either way.
    pub fn set_timestamp(&mut self, timestamp: &str) -> (r: Result<(), ConversionError>)
        ensures
            r is Ok <==> spec_parse_rfc3339(timestamp@) is Some,
            r matches Err(e) ==> e == ConversionError::InvalidTimestamp && *final(self) == *old(
                self,
            ),
            r is Ok ==> (final(self).timestamp matches Some(t) && spec_parse_rfc3339(timestamp@)
                == Some(t@)),
            r is Ok ==> (*final(self) == ReleaseNotes {
                timestamp: final(self).timestamp,
                ..*old(self)
            }),
    {
        match Timestamp::parse(timestamp) {
            Ok(t) => {
                self.timestamp = Some(t);
                Ok(())
            },
            Err(e) => Err(e),
        }
    }

    /// Sets the alias list to the supplied sequence, kept in its order; an
    /// empty sequence stays a present-but-empty list, distinct from an
    /// absent one. Every other field keeps its value.
    pub fn set_aliases(&mut self, aliases: Vec<String>)
        ensures
            final(self).aliases matches Some(v) && texts_eq(v@, aliases@) && v@.len()
                == aliases@.len(),
            (*final(self) == ReleaseNotes { aliases: final(self).aliases, ..*old(self) }),
    {
        self.aliases = Some(aliases);
    }

    /// Sets the tag list to the supplied sequence, kept in its order; an
    /// empty sequence stays a present-but-empty list, distinct from an
    /// absent one. Every other field keeps its value.
    pub fn set_tags(&mut self, tags: Vec<String>)
        ensures
            final(self).tags matches Some(v) && texts_eq(v@, tags@) && v@.len() == tags@.len(),
            (*final(self) == ReleaseNotes { tags: final(self).tags, ..*old(self) }),
    {
        self.tags = Some(tags);
    }

    /// Sets the issue references to the supplied sequence, kept in its
    /// order. Every other field keeps its value.
    pub fn set_issues(&mut self, issues: Vec<Issue>)
        ensures
            final(self).issues matches Some(v) && issues_eq(v@, issues@) && v@.len()
                == issues@.len(),
            (*final(self) == ReleaseNotes { issues: final(self).issues, ..*old(self) }),
    {
        self.issues = Some(issues);
    }

    /// Sets the localized notes to the supplied sequence, kept in insertion
    /// order; entries repeating a locale are legal and are all kept. Every
    /// other field keeps its value.
    pub fn set_notes(&mut self, notes: Vec<LocalizedString>)
        ensures
            final(self).notes matches Some(v) && notes_eq(v@, notes@) && v@.len() == notes@.len(),
            (*final(self) == ReleaseNotes { notes: final(self).notes, ..*old(self) }),
    {
        self.notes = Some(notes);
    }
}

impl Default for ReleaseNotes {
    /// The same record as `ReleaseNotes::new`: no optional field set, and
    /// the default `Minor` release type.
    fn default() -> (r: Self)
        ensures
            r.release_type == ReleaseType::Minor,
            r.title is None,
            r.featured_image is None,
            r.social_image is None,
            r.description is None,
            r.timestamp is None,
            r.aliases is None,
            r.tags is None,
            r.issues is None,
            r.notes is None,
    {
        ReleaseNotes::new()
    }
}

} // verus!
