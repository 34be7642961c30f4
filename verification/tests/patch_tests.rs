use mcsetup::errors::PatchError;
use mcsetup::patch::patch_lines;
use mcsetup::patch::EULA_LINE;
use mcsetup::patch::MCDR_CONSOLE_THREAD_LINE;
use mcsetup::patch::MCDR_START_COMMAND_LINE;
use mcsetup::patch::PERMISSION_NICKNAME_LINE;

fn lines(texts: &[&str]) -> Vec<String> {
    texts.iter().map(|t| t.to_string()).collect()
}

#[test]
fn patch_replaces_exactly_one_line() {
    let original = lines(&["alpha", "beta", "gamma", "delta"]);
    let patched = patch_lines(&original, 2, "GAMMA").expect("index in range");
    assert_eq!(patched, lines(&["alpha", "beta", "GAMMA", "delta"]));
    assert_eq!(patched.len(), original.len());
}

#[test]
fn patch_works_at_both_ends() {
    let original = lines(&["first", "middle", "last"]);
    assert_eq!(
        patch_lines(&original, 0, "FIRST").unwrap(),
        lines(&["FIRST", "middle", "last"])
    );
    assert_eq!(
        patch_lines(&original, 2, "LAST").unwrap(),
        lines(&["first", "middle", "LAST"])
    );
}

#[test]
fn patch_past_the_end_fails_and_touches_nothing() {
    let original = lines(&["only", "two"]);
    assert_eq!(patch_lines(&original, 2, "three"), Err(PatchError::OutOfRange));
    assert_eq!(patch_lines(&original, 100, "x"), Err(PatchError::OutOfRange));
    assert_eq!(original, lines(&["only", "two"]));
}

#[test]
fn patch_empty_file_always_fails() {
    let original: Vec<String> = Vec::new();
    assert_eq!(patch_lines(&original, 0, "x"), Err(PatchError::OutOfRange));
}

#[test]
fn known_config_offsets() {
    assert_eq!(MCDR_START_COMMAND_LINE, 19);
    assert_eq!(MCDR_CONSOLE_THREAD_LINE, 77);
    assert_eq!(PERMISSION_NICKNAME_LINE, 13);
    assert_eq!(EULA_LINE, 2);
}
