//! A syntactically valid IRI reference, kept as the text it was built from.

use vstd::prelude::*;

use crate::ConversionError;

verus! {

/// Whether a text satisfies the IRI reference grammar, as iri_string's
/// validator decides it.
pub uninterp spec fn is_iri_reference(s: Seq<char>) -> bool;

/// Relies on iri_string::types::IriReferenceStr::new, which returns `Ok`
/// exactly when the text satisfies the IRI reference grammar of RFC 3987;
/// validity depends on the characters alone.
#[verifier::external_body]
fn check_iri_reference(s: &str) -> (r: bool)
    ensures
        r == is_iri_reference(s@),
{
    iri_string::types::IriReferenceStr::new(s).is_ok()
}

/// An IRI reference that passed grammar validation, kept exactly as the text
/// it was built from.
#[derive(Clone, Debug, Hash)]
pub struct Iri {
    text: String,
}

impl View for Iri {
    type V = Seq<char>;

    closed spec fn view(&self) -> Seq<char> {
        self.text@
    }
}

impl Iri {
    /// Whether this value holds validated text.
    pub closed spec fn wf(&self) -> bool {
        is_iri_reference(self.text@)
    }

    /// Validates the supplied text against the IRI reference grammar and, on
    /// success, keeps it unchanged; invalid text is rejected with
    /// `InvalidIri`.
    pub fn new(text: String) -> (r: Result<Iri, ConversionError>)
        ensures
            r is Ok <==> is_iri_reference(text@),
            r matches Ok(i) ==> i@ == text@ && i.wf(),
            r matches Err(e) ==> e == ConversionError::InvalidIri,
    {
        if check_iri_reference(text.as_str()) {
            Ok(Iri { text })
        } else {
            Err(ConversionError::InvalidIri)
        }
    }

    /// The validated text, exactly as supplied.
    pub fn as_str(&self) -> (r: &str)
        ensures
            r@ == self@,
    {
        self.text.as_str()
    }
}

impl PartialEq for Iri {
    fn eq(&self, other: &Self) -> (r: bool) {
        self.text == other.text
    }
}

impl Eq for Iri {

}

impl vstd::std_specs::cmp::PartialEqSpecImpl for Iri {
    open spec fn obeys_eq_spec() -> bool {
        true
    }

    open spec fn eq_spec(&self, other: &Self) -> bool {
        self@ == other@
    }
}

} // verus!
