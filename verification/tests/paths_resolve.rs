use zjs::paths::{bytes_eq, dirname, join_path, set_js_extension};
use zjs::resolve::{classify_specifier, pick_resolved, resolve_candidates, SpecifierKind};

#[test]
fn dirname_of_nested_path() {
    assert_eq!(dirname(b"/tmp/a.js"), b"/tmp".to_vec());
}

#[test]
fn dirname_of_root_file() {
    assert_eq!(dirname(b"/a.js"), b"/".to_vec());
}

#[test]
fn dirname_of_bare_name() {
    assert_eq!(dirname(b"a.js"), b"".to_vec());
}

#[test]
fn dirname_of_empty() {
    assert_eq!(dirname(b""), b"".to_vec());
}

#[test]
fn join_relative() {
    assert_eq!(join_path(b"/tmp", b"./b.js"), b"/tmp/./b.js".to_vec());
}

#[test]
fn join_absolute_specifier_wins() {
    assert_eq!(join_path(b"/tmp", b"/abs/c.js"), b"/abs/c.js".to_vec());
}

#[test]
fn join_empty_dir() {
    assert_eq!(join_path(b"", b"x.js"), b"x.js".to_vec());
}

#[test]
fn join_dir_ending_in_separator() {
    assert_eq!(join_path(b"/", b"x.js"), b"/x.js".to_vec());
}

#[test]
fn js_extension_appended_when_none() {
    assert_eq!(set_js_extension(b"/tmp/b"), b"/tmp/b.js".to_vec());
}

#[test]
fn js_extension_replaces_other() {
    assert_eq!(set_js_extension(b"/tmp/b.ts"), b"/tmp/b.js".to_vec());
}

#[test]
fn js_extension_keeps_leading_dot_name() {
    assert_eq!(set_js_extension(b"/tmp/.hidden"), b"/tmp/.hidden.js".to_vec());
}

#[test]
fn js_extension_replaces_only_last() {
    assert_eq!(set_js_extension(b"b.x.y"), b"b.x.js".to_vec());
}

#[test]
fn classify_bare_specifier_is_builtin() {
    assert_eq!(classify_specifier(b"fs"), SpecifierKind::Builtin);
}

#[test]
fn classify_dot_slash_is_user_path() {
    assert_eq!(classify_specifier(b"./a.js"), SpecifierKind::UserPath);
}

#[test]
fn classify_absolute_is_user_path() {
    assert_eq!(classify_specifier(b"/a.js"), SpecifierKind::UserPath);
}

#[test]
fn classify_other_dot_forms_are_builtin() {
    assert_eq!(classify_specifier(b"../a.js"), SpecifierKind::Builtin);
    assert_eq!(classify_specifier(b".hidden"), SpecifierKind::Builtin);
}

#[test]
fn candidates_literal_then_js() {
    let cands = resolve_candidates(b"/tmp/a.js", b"./b");
    assert_eq!(cands.len(), 2);
    assert_eq!(cands[0], b"/tmp/./b".to_vec());
    assert_eq!(cands[1], b"/tmp/./b.js".to_vec());
}

#[test]
fn pick_first_existing_candidate() {
    let canon: Vec<Option<Vec<u8>>> = vec![None, Some(b"/tmp/b.js".to_vec())];
    assert_eq!(pick_resolved(&canon), Some(b"/tmp/b.js".to_vec()));
}

#[test]
fn pick_prefers_earlier_candidate() {
    let canon: Vec<Option<Vec<u8>>> = vec![
        Some(b"/tmp/b".to_vec()),
        Some(b"/tmp/b.js".to_vec()),
    ];
    assert_eq!(pick_resolved(&canon), Some(b"/tmp/b".to_vec()));
}

#[test]
fn pick_none_when_nothing_exists() {
    let canon: Vec<Option<Vec<u8>>> = vec![None, None];
    assert_eq!(pick_resolved(&canon), None);
}

#[test]
fn dirname_with_trailing_separator() {
    assert_eq!(dirname(b"/tmp/"), b"/tmp".to_vec());
}

#[test]
fn classify_empty_specifier_is_builtin() {
    assert_eq!(classify_specifier(b""), SpecifierKind::Builtin);
}

#[test]
fn bytes_helpers() {
    assert!(bytes_eq(b"abc", b"abc"));
    assert!(!bytes_eq(b"abc", b"abd"));
    assert!(!bytes_eq(b"abc", b"ab"));
}
