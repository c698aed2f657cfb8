use tag_manager::rating::AuthLevel;
use tag_manager::rating::Rating;

#[test]
fn dbformat_names_are_lowercase() {
    assert_eq!(Rating::General.to_dbformat(), "general");
    assert_eq!(Rating::Sensitive.to_dbformat(), "sensitive");
    assert_eq!(Rating::Questionable.to_dbformat(), "questionable");
    assert_eq!(Rating::Explicit.to_dbformat(), "explicit");
}

#[test]
fn dbformat_round_trips() {
    for rating in [
        Rating::General,
        Rating::Sensitive,
        Rating::Questionable,
        Rating::Explicit,
    ] {
        assert_eq!(Rating::from_dbformat(rating.to_dbformat()), Some(rating));
    }
}

#[test]
fn unknown_wire_names_are_rejected() {
    assert_eq!(Rating::from_dbformat(""), None);
    assert_eq!(Rating::from_dbformat("General"), None);
    assert_eq!(Rating::from_dbformat("suggestive"), None);
}

#[test]
fn severity_follows_the_ordinal_scale() {
    assert!(Rating::General.severity() < Rating::Sensitive.severity());
    assert!(Rating::Sensitive.severity() < Rating::Questionable.severity());
    assert!(Rating::Questionable.severity() < Rating::Explicit.severity());
}

#[test]
fn labels_are_capitalized() {
    assert_eq!(Rating::General.label(), "General");
    assert_eq!(Rating::Explicit.label(), "Explicit");
}

#[test]
fn guests_see_only_mild_content() {
    assert!(AuthLevel::Guest.is_allowed(Rating::General));
    assert!(AuthLevel::Guest.is_allowed(Rating::Sensitive));
    assert!(!AuthLevel::Guest.is_allowed(Rating::Questionable));
    assert!(!AuthLevel::Guest.is_allowed(Rating::Explicit));
    assert!(!AuthLevel::User.is_allowed(Rating::Explicit));
}

#[test]
fn privileged_levels_see_everything() {
    for rating in [
        Rating::General,
        Rating::Sensitive,
        Rating::Questionable,
        Rating::Explicit,
    ] {
        assert!(AuthLevel::PrivilegedUser.is_allowed(rating));
        assert!(AuthLevel::Admin.is_allowed(rating));
    }
}
