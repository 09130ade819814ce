//! A language-tagged text pair: one localized rendition of release-notes
//! text.

use vstd::prelude::*;

verus! {

/// One localized rendition of release-notes text. The locale identifier is
/// kept as opaque text; its syntax is not validated here. Both fields are
/// required, and equality is structural over both.
#[derive(Clone, Debug, Hash)]
pub struct LocalizedString {
    pub locale: String,
    pub text: String,
}

impl LocalizedString {
    /// Pairs a locale identifier with the text rendered in that locale.
    pub fn new(locale: String, text: String) -> (r: LocalizedString)
        ensures
            r.locale@ == locale@,
            r.text@ == text@,
    {
        LocalizedString { locale, text }
    }
}

impl PartialEq for LocalizedString {
    fn eq(&self, other: &Self) -> (r: bool) {
        self.locale == other.locale && self.text == other.text
    }
}

impl Eq for LocalizedString {

}

impl vstd::std_specs::cmp::PartialEqSpecImpl for LocalizedString {
    open spec fn obeys_eq_spec() -> bool {
        true
    }

    open spec fn eq_spec(&self, other: &Self) -> bool {
        self.locale@ == other.locale@ && self.text@ == other.text@
    }
}

} // verus!
