use mcsetup::catalog::find_entry;
use mcsetup::catalog::resolve_version;
use mcsetup::catalog::ResolveOutcome;
use mcsetup::catalog::VersionEntry;
use mcsetup::catalog::VersionManifest;
use mcsetup::errors::VersionError;

fn stub_manifest() -> VersionManifest {
    VersionManifest {
        latest_release: String::from("1.20.1"),
        versions: vec![
            VersionEntry {
                id: String::from("1.20.1"),
                url: String::from("https://meta.example/v1/packages/aaa/1.20.1.json"),
            },
            VersionEntry {
                id: String::from("1.16.5"),
                url: String::from("https://meta.example/v1/packages/bbb/1.16.5.json"),
            },
            VersionEntry {
                id: String::from("1.7.10"),
                url: String::from("https://meta.example/v1/packages/ccc/1.7.10.json"),
            },
        ],
    }
}

#[test]
fn empty_request_resolves_to_latest_release() {
    let manifest = stub_manifest();
    match resolve_version("", &manifest) {
        Ok(ResolveOutcome::Resolved(k)) => {
            assert_eq!(manifest.versions[k].id, manifest.latest_release);
            assert_eq!(k, 0);
        }
        other => panic!("expected the latest release, got {:?}", discriminant_name(&other)),
    }
}

#[test]
fn present_id_resolves_to_its_entry() {
    let manifest = stub_manifest();
    match resolve_version("1.16.5", &manifest) {
        Ok(ResolveOutcome::Resolved(k)) => {
            assert_eq!(k, 1);
            assert_eq!(manifest.versions[k].id, "1.16.5");
            assert_eq!(
                manifest.versions[k].url,
                "https://meta.example/v1/packages/bbb/1.16.5.json"
            );
        }
        other => panic!("expected a resolved entry, got {:?}", discriminant_name(&other)),
    }
}

#[test]
fn absent_id_asks_again_instead_of_failing() {
    let manifest = stub_manifest();
    match resolve_version("1.19.4", &manifest) {
        Ok(ResolveOutcome::NotFound) => {}
        _ => panic!("an id missing from the catalog must loop, not abort"),
    }
}

#[test]
fn bad_characters_ask_again() {
    let manifest = stub_manifest();
    match resolve_version("1w.19.4", &manifest) {
        Ok(ResolveOutcome::InvalidChars) => {}
        _ => panic!("an id with stray characters must loop, not abort"),
    }
}

#[test]
fn unsupported_request_is_fatal() {
    let manifest = stub_manifest();
    match resolve_version("1.1.0", &manifest) {
        Err(VersionError::Unsupported) => {}
        _ => panic!("a version below the minimum must be fatal"),
    }
}

#[test]
fn unparseable_request_is_fatal() {
    let manifest = stub_manifest();
    match resolve_version("one.two", &manifest) {
        Err(VersionError::ParseFailure) => {}
        _ => panic!("a version that does not parse must be fatal"),
    }
}

#[test]
fn lookup_finds_the_first_match_only() {
    let manifest = stub_manifest();
    assert_eq!(find_entry(&manifest.versions, "1.7.10"), Some(2));
    assert_eq!(find_entry(&manifest.versions, "1.8.9"), None);
}

fn discriminant_name(r: &Result<ResolveOutcome, VersionError>) -> &'static str {
    match r {
        Ok(ResolveOutcome::Resolved(_)) => "Resolved",
        Ok(ResolveOutcome::InvalidChars) => "InvalidChars",
        Ok(ResolveOutcome::NotFound) => "NotFound",
        Err(VersionError::Unsupported) => "Unsupported",
        Err(VersionError::ParseFailure) => "ParseFailure",
    }
}
