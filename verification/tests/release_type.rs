use release_notes::{ConversionError, ReleaseType};

#[test]
fn token_round_trip_all_variants() {
    let variants = [
        ReleaseType::Major,
        ReleaseType::Minor,
        ReleaseType::Patch,
        ReleaseType::PreRelease,
        ReleaseType::Internal,
    ];
    for v in variants {
        assert_eq!(ReleaseType::from_token(v.to_token().as_str()), Ok(v));
    }
    let tokens = ["major", "minor", "patch", "pre-release", "internal"];
    for s in tokens {
        let v = ReleaseType::from_token(s).unwrap();
        assert_eq!(v.to_token().as_str(), s);
    }
}

#[test]
fn token_mapping_matches_vocabulary() {
    assert_eq!(ReleaseType::from_token("major"), Ok(ReleaseType::Major));
    assert_eq!(ReleaseType::from_token("minor"), Ok(ReleaseType::Minor));
    assert_eq!(ReleaseType::from_token("patch"), Ok(ReleaseType::Patch));
    assert_eq!(
        ReleaseType::from_token("pre-release"),
        Ok(ReleaseType::PreRelease)
    );
    assert_eq!(ReleaseType::from_token("internal"), Ok(ReleaseType::Internal));
    assert_eq!(ReleaseType::Major.to_token(), "major");
    assert_eq!(ReleaseType::PreRelease.to_token(), "pre-release");
}

#[test]
fn from_token_rejects_unknown_token() {
    assert_eq!(
        ReleaseType::from_token("unknown"),
        Err(ConversionError::InvalidReleaseType)
    );
}

#[test]
fn from_token_is_case_sensitive() {
    assert_eq!(
        ReleaseType::from_token("Major"),
        Err(ConversionError::InvalidReleaseType)
    );
    assert_eq!(
        ReleaseType::from_token(" major"),
        Err(ConversionError::InvalidReleaseType)
    );
    assert_eq!(
        ReleaseType::from_token(""),
        Err(ConversionError::InvalidReleaseType)
    );
}

#[test]
fn default_release_type_is_minor() {
    assert_eq!(ReleaseType::default(), ReleaseType::Minor);
}
