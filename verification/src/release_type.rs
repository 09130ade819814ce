//! The closed classification of how significant a release is, and its
//! bijective mapping to the wire-format tokens.

use vstd::prelude::*;

use crate::ConversionError;

verus! {

/// How significant a release is. The five variants correspond one-to-one to
/// the wire-format tokens `"major"`, `"minor"`, `"patch"`, `"pre-release"`
/// and `"internal"`; no other token is valid.
#[derive(Clone, Copy, Debug, PartialEq, Eq, Hash, Structural)]
pub enum ReleaseType {
    Major,
    Minor,
    Patch,
    PreRelease,
    Internal,
}

/// The wire-format token of a variant: the total direction of the bijection.
pub open spec fn spec_token(t: ReleaseType) -> Seq<char> {
    match t {
        ReleaseType::Major => "major"@,
        ReleaseType::Minor => "minor"@,
        ReleaseType::Patch => "patch"@,
        ReleaseType::PreRelease => "pre-release"@,
        ReleaseType::Internal => "internal"@,
    }
}

/// The variant a wire-format token denotes: the partial direction of the
/// bijection. Matching is exact and case-sensitive; anything outside the
/// closed vocabulary is rejected.
pub open spec fn spec_from_token(s: Seq<char>) -> Result<ReleaseType, ConversionError> {
    if s == "major"@ {
        Ok(ReleaseType::Major)
    } else if s == "minor"@ {
        Ok(ReleaseType::Minor)
    } else if s == "patch"@ {
        Ok(ReleaseType::Patch)
    } else if s == "pre-release"@ {
        Ok(ReleaseType::PreRelease)
    } else if s == "internal"@ {
        Ok(ReleaseType::Internal)
    } else {
        Err(ConversionError::InvalidReleaseType)
    }
}

/// Character-by-character string comparison.
pub(crate) fn str_eq(a: &str, b: &str) -> (r: bool)
    ensures
        r == (a@ == b@),
{
    let n = a.unicode_len();
    if n != b.unicode_len() {
        return false;
    }
    let mut i: usize = 0;
    while i < n
        invariant
            n == a@.len(),
            n == b@.len(),
            i <= n,
            forall|j: int| 0 <= j < i ==> a@[j] == b@[j],
        decreases n - i,
    {
        if a.get_char(i) != b.get_char(i) {
            return false;
        }
        i += 1;
    }
    proof {
        assert(a@ =~= b@);
    }
    true
}

impl ReleaseType {
    /// Renders the variant as its wire-format token.
    pub fn to_token(&self) -> (r: String)
        ensures
            r@ == spec_token(*self),
    {
        match self {
            ReleaseType::Major => String::from_str("major"),
            ReleaseType::Minor => String::from_str("minor"),
            ReleaseType::Patch => String::from_str("patch"),
            ReleaseType::PreRelease => String::from_str("pre-release"),
            ReleaseType::Internal => String::from_str("internal"),
        }
    }

    /// Reads a wire-format token back into a variant; tokens outside the
    /// closed vocabulary are rejected with `InvalidReleaseType`.
    pub fn from_token(s: &str) -> (r: Result<ReleaseType, ConversionError>)
        ensures
            r == spec_from_token(s@),
    {
        if str_eq(s, "major") {
            Ok(ReleaseType::Major)
        } else if str_eq(s, "minor") {
            Ok(ReleaseType::Minor)
        } else if str_eq(s, "patch") {
            Ok(ReleaseType::Patch)
        } else if str_eq(s, "pre-release") {
            Ok(ReleaseType::PreRelease)
        } else if str_eq(s, "internal") {
            Ok(ReleaseType::Internal)
        } else {
            Err(ConversionError::InvalidReleaseType)
        }
    }
}

impl Default for ReleaseType {
    /// A release whose type is unspecified counts as a minor release.
    fn default() -> (r: Self)
        ensures
            r == ReleaseType::Minor,
    {
        ReleaseType::Minor
    }
}

/// Law: the variant/token mapping is a bijection over the closed vocabulary.
/// Rendering any variant and reading the token back yields that variant, and
/// reading any valid token and rendering the result reproduces the token.
pub proof fn lemma_token_bijection(v: ReleaseType, s: Seq<char>)
    ensures
        spec_from_token(spec_token(v)) == Ok::<ReleaseType, ConversionError>(v),
        spec_from_token(s) matches Ok(w) ==> spec_token(w) == s,
{
    reveal_strlit("major");
    reveal_strlit("minor");
    reveal_strlit("patch");
    reveal_strlit("pre-release");
    reveal_strlit("internal");
    assert("major"@[0] != "minor"@[0] || "major"@[1] != "minor"@[1]);
    assert("major"@[0] != "patch"@[0]);
    assert("minor"@[0] != "patch"@[0]);
    assert("major"@.len() != "pre-release"@.len());
    assert("major"@.len() != "internal"@.len());
    assert("pre-release"@.len() != "internal"@.len());
}

} // verus!
