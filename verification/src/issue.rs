//! A reference to an issue record owned by the external issue-tracking
//! model.

use vstd::prelude::*;

verus! {

/// A value copy of an externally owned issue record. Release notes store and
/// compare these references without interpreting them; the record itself is
/// validated and managed by the external issue-tracking model.
#[derive(Clone, Debug, Hash)]
pub struct Issue {
    pub id: String,
}

impl Issue {
    /// Wraps the identifying text of an externally owned issue record.
    pub fn new(id: String) -> (r: Issue)
        ensures
            r.id@ == id@,
    {
        Issue { id }
    }
}

impl PartialEq for Issue {
    fn eq(&self, other: &Self) -> (r: bool) {
        self.id == other.id
    }
}

impl Eq for Issue {

}

impl vstd::std_specs::cmp::PartialEqSpecImpl for Issue {
    open spec fn obeys_eq_spec() -> bool {
        true
    }

    open spec fn eq_spec(&self, other: &Self) -> bool {
        self.id@ == other.id@
    }
}

} // verus!
