use release_notes::{
    ConversionError, Issue, LocalizedString, ReleaseNotes, ReleaseType, Timestamp,
};

#[test]
fn valid_datetimes_should_pass_validation() {
    let timestamp_result = Timestamp::parse("1969-06-28T01:20:00.00-04:00");
    assert!(timestamp_result.is_ok());
}

#[test]
fn new_record_has_all_optional_fields_absent() {
    let r = ReleaseNotes::new();
    assert_eq!(r.release_type, ReleaseType::Minor);
    assert!(r.title.is_none());
    assert!(r.featured_image.is_none());
    assert!(r.social_image.is_none());
    assert!(r.description.is_none());
    assert!(r.timestamp.is_none());
    assert!(r.aliases.is_none());
    assert!(r.tags.is_none());
    assert!(r.issues.is_none());
    assert!(r.notes.is_none());
    assert_eq!(r, ReleaseNotes::default());
}

#[test]
fn empty_aliases_are_present_and_distinct_from_absent() {
    let absent = ReleaseNotes::new();
    let mut present = ReleaseNotes::new();
    present.set_aliases(vec![]);
    match &present.aliases {
        Some(v) => assert!(v.is_empty()),
        None => panic!("an explicitly empty alias list must stay present"),
    }
    assert_ne!(absent, present);
}

#[test]
fn timestamp_keeps_its_original_offset() {
    let t = Timestamp::parse("1969-06-28T01:20:00.00-04:00").unwrap();
    assert_eq!(t.offset_seconds(), -4 * 3600);
    assert_eq!(t.offset_suffix(), "-04:00");
    assert_eq!(t.epoch_seconds(), -16_137_600);
    assert_eq!(t.subsec_nanos(), 0);
}

#[test]
fn timestamp_offset_suffix_renders_positive_offsets() {
    let t = Timestamp::parse("2001-02-03T04:05:06+05:30").unwrap();
    assert_eq!(t.offset_seconds(), 5 * 3600 + 30 * 60);
    assert_eq!(t.offset_suffix(), "+05:30");
    assert_eq!(t.epoch_seconds(), 981_153_306);
}

#[test]
fn timestamp_offset_suffix_edge_cases() {
    let utc = Timestamp::parse("1970-01-01T00:00:00Z").unwrap();
    assert_eq!(utc.offset_seconds(), 0);
    assert_eq!(utc.offset_suffix(), "+00:00");
    assert_eq!(utc.epoch_seconds(), 0);

    let sub_hour = Timestamp::parse("2000-01-01T00:00:00-00:30").unwrap();
    assert_eq!(sub_hour.offset_seconds(), -30 * 60);
    assert_eq!(sub_hour.offset_suffix(), "-00:30");
}

#[test]
fn image_fields_accept_relative_iri_references() {
    let mut r = ReleaseNotes::new();
    assert_eq!(r.set_featured_image("/images/a.png".to_string()), Ok(()));
    assert_eq!(r.set_social_image("#fragment".to_string()), Ok(()));
}

#[test]
fn timestamp_rejects_invalid_text() {
    assert_eq!(
        Timestamp::parse("not a timestamp"),
        Err(ConversionError::InvalidTimestamp)
    );
    assert_eq!(
        Timestamp::parse("1969-06-28"),
        Err(ConversionError::InvalidTimestamp)
    );
    let mut r = ReleaseNotes::new();
    assert_eq!(
        r.set_timestamp("2020-13-40T99:99:99Z"),
        Err(ConversionError::InvalidTimestamp)
    );
    assert!(r.timestamp.is_none());
}

#[test]
fn timestamp_from_parts_checks_its_bounds() {
    assert!(Timestamp::from_parts(0, 0, 0).is_some());
    assert!(Timestamp::from_parts(0, 1_999_999_999, 86_399).is_some());
    assert!(Timestamp::from_parts(0, 2_000_000_000, 0).is_none());
    assert!(Timestamp::from_parts(0, 0, 86_400).is_none());
    assert!(Timestamp::from_parts(0, 0, -86_400).is_none());
}

#[test]
fn featured_image_rejects_invalid_iri() {
    let mut r = ReleaseNotes::new();
    assert_eq!(
        r.set_featured_image("not a valid iri ??".to_string()),
        Err(ConversionError::InvalidIri)
    );
    assert!(r.featured_image.is_none());
}

#[test]
fn featured_image_accepts_well_formed_iri() {
    let mut r = ReleaseNotes::new();
    assert_eq!(
        r.set_featured_image("https://example.com/img.png".to_string()),
        Ok(())
    );
    assert_eq!(
        r.featured_image.as_ref().map(|i| i.as_str()),
        Some("https://example.com/img.png")
    );
    assert_eq!(
        r.set_social_image("https://example.com/social.png".to_string()),
        Ok(())
    );
}

fn sample_record() -> ReleaseNotes {
    let mut r = ReleaseNotes::new();
    r.set_release_type(ReleaseType::Patch);
    r.set_title("title".to_string());
    r.set_description("description".to_string());
    r.set_featured_image("https://example.com/a.png".to_string())
        .unwrap();
    r.set_timestamp("2020-01-01T02:00:00+02:00").unwrap();
    r.set_aliases(vec!["alias".to_string()]);
    r.set_tags(vec!["tag".to_string()]);
    r.set_issues(vec![Issue::new("issue-1".to_string())]);
    r.set_notes(vec![LocalizedString::new(
        "en".to_string(),
        "hello".to_string(),
    )]);
    r
}

#[test]
fn records_with_identical_fields_compare_equal() {
    assert_eq!(sample_record(), sample_record());
}

#[test]
fn records_differing_by_one_field_compare_unequal() {
    let base = sample_record();

    let mut other = sample_record();
    other.set_release_type(ReleaseType::Major);
    assert_ne!(base, other);

    let mut other = sample_record();
    other.set_title("another title".to_string());
    assert_ne!(base, other);

    let mut other = sample_record();
    other.title = None;
    assert_ne!(base, other);

    let mut other = sample_record();
    other.set_aliases(vec![]);
    assert_ne!(base, other);

    let mut other = sample_record();
    other.set_notes(vec![]);
    assert_ne!(base, other);
}

#[test]
fn records_differing_only_in_timestamp_offset_compare_unequal() {
    // The same instant written with two different UTC offsets.
    let base = sample_record();
    let mut other = sample_record();
    other.set_timestamp("2020-01-01T00:00:00+00:00").unwrap();
    assert_eq!(
        base.timestamp.unwrap().epoch_seconds(),
        other.timestamp.unwrap().epoch_seconds()
    );
    assert_ne!(base, other);
}

#[test]
fn notes_keep_duplicate_locales_in_insertion_order() {
    let mut r = ReleaseNotes::new();
    r.set_notes(vec![
        LocalizedString::new("en".to_string(), "first".to_string()),
        LocalizedString::new("en".to_string(), "second".to_string()),
    ]);
    let notes = r.notes.as_ref().unwrap();
    assert_eq!(notes.len(), 2);
    assert_eq!(notes[0].locale, "en");
    assert_eq!(notes[0].text, "first");
    assert_eq!(notes[1].locale, "en");
    assert_eq!(notes[1].text, "second");
}

#[test]
fn localized_strings_compare_structurally() {
    let a = LocalizedString::new("en".to_string(), "hello".to_string());
    let b = LocalizedString::new("en".to_string(), "hello".to_string());
    let c = LocalizedString::new("de".to_string(), "hello".to_string());
    assert_eq!(a, b);
    assert_ne!(a, c);
}

#[test]
fn setters_leave_other_fields_alone() {
    let mut r = sample_record();
    let before_title = r.title.clone();
    assert_eq!(
        r.set_featured_image("not a valid iri ??".to_string()),
        Err(ConversionError::InvalidIri)
    );
    assert_eq!(r, sample_record());
    r.set_tags(vec!["new".to_string()]);
    assert_eq!(r.title, before_title);
    assert_eq!(
        r.featured_image.as_ref().map(|i| i.as_str()),
        Some("https://example.com/a.png")
    );
}
