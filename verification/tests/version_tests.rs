use mcsetup::errors::VersionError;
use mcsetup::version::check_version_chars;
use mcsetup::version::eula_applicable;
use mcsetup::version::parse_segment;
use mcsetup::version::version_gate;

#[test]
fn gate_rejects_below_minimum_ordinal() {
    // The ordinal is read before the rest, so the odd sub-segment never parses.
    assert_eq!(version_gate("1.1.x"), Err(VersionError::Unsupported));
}

#[test]
fn gate_accepts_minimum_boundary() {
    assert_eq!(version_gate("1.2.5"), Ok(()));
}

#[test]
fn gate_rejects_just_below_boundary() {
    assert_eq!(version_gate("1.2.4"), Err(VersionError::Unsupported));
}

#[test]
fn gate_accepts_modern_versions() {
    assert_eq!(version_gate("1.20.1"), Ok(()));
    assert_eq!(version_gate("1.16.5"), Ok(()));
}

#[test]
fn gate_needs_a_second_segment() {
    assert_eq!(version_gate("1"), Err(VersionError::ParseFailure));
    assert_eq!(version_gate(""), Err(VersionError::ParseFailure));
}

#[test]
fn gate_rejects_non_numeric_segments() {
    assert_eq!(version_gate("1.x.2"), Err(VersionError::ParseFailure));
    assert_eq!(version_gate("1.8.x"), Err(VersionError::ParseFailure));
}

#[test]
fn gate_rejects_oversized_segments() {
    assert_eq!(version_gate("1.128"), Err(VersionError::ParseFailure));
    assert_eq!(version_gate("1.127"), Ok(()));
}

#[test]
fn eula_step_skips_old_versions() {
    assert_eq!(eula_applicable("1.7.9"), Ok(false));
    assert_eq!(eula_applicable("1.6.4"), Ok(false));
    assert_eq!(eula_applicable("1.7"), Ok(false));
}

#[test]
fn eula_step_proceeds_from_boundary() {
    assert_eq!(eula_applicable("1.7.10"), Ok(true));
    assert_eq!(eula_applicable("1.20.1"), Ok(true));
    assert_eq!(eula_applicable("1.8"), Ok(true));
}

#[test]
fn eula_step_fails_on_unparseable_versions() {
    assert_eq!(eula_applicable("1.7.x"), Err(VersionError::ParseFailure));
    assert_eq!(eula_applicable("latest"), Err(VersionError::ParseFailure));
}

#[test]
fn segments_parse_as_small_integers() {
    assert_eq!(parse_segment("0"), Some(0));
    assert_eq!(parse_segment("16"), Some(16));
    assert_eq!(parse_segment("127"), Some(127));
    assert_eq!(parse_segment("128"), None);
    assert_eq!(parse_segment(""), None);
    assert_eq!(parse_segment("1a"), None);
    assert_eq!(parse_segment("007"), Some(7));
}

#[test]
fn version_characters_are_digits_and_dots() {
    assert!(check_version_chars("1.20.1"));
    assert!(check_version_chars(""));
    assert!(!check_version_chars("1.20.1-pre"));
    assert!(!check_version_chars("latest"));
}
