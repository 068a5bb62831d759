use oidc_app_auth::sanitize_return_to;

#[test]
fn return_paths_are_same_origin_only() {
    assert_eq!(
        sanitize_return_to(Some("/console?tab=1")),
        Some("/console?tab=1".into())
    );
    assert_eq!(sanitize_return_to(Some("https://evil.invalid")), None);
    assert_eq!(sanitize_return_to(Some("//evil.invalid")), None);
    assert_eq!(
        sanitize_return_to(Some("/console\r\nLocation: https://evil.invalid")),
        None
    );
}

#[test]
fn nothing_is_kept_of_nothing() {
    assert_eq!(sanitize_return_to(None), None);
    assert_eq!(sanitize_return_to(Some("")), None);
    assert_eq!(sanitize_return_to(Some(" \t\u{3000}\n")), None);
}

#[test]
fn surrounding_white_space_is_dropped() {
    assert_eq!(sanitize_return_to(Some("/")), Some("/".to_owned()));
    assert_eq!(
        sanitize_return_to(Some("  /a b/c\r\n")),
        Some("/a b/c".to_owned())
    );
    assert_eq!(
        sanitize_return_to(Some("\u{a0}/caf\u{e9}\u{2003}")),
        Some("/caf\u{e9}".to_owned())
    );
    assert_eq!(sanitize_return_to(Some(" //evil.invalid ")), None);
}

#[test]
fn backslashes_are_refused() {
    assert_eq!(sanitize_return_to(Some("/\\evil.invalid")), None);
    assert_eq!(sanitize_return_to(Some("/a/b\\")), None);
}

#[test]
fn a_later_double_slash_is_kept() {
    assert_eq!(sanitize_return_to(Some("/a//b")), Some("/a//b".to_owned()));
}

#[test]
fn sanitizing_twice_changes_nothing() {
    for text in [" /x/y ", "/\u{2028}z", "//", "/a\u{7}", "/q?r=s#t"] {
        let once = sanitize_return_to(Some(text));
        assert_eq!(sanitize_return_to(once.as_deref()), once);
    }
}

#[test]
fn white_space_is_that_of_the_standard_library() {
    for c in '\0'..=char::MAX {
        let kept = sanitize_return_to(Some(&format!("{c}/x{c}")));
        assert_eq!(kept == Some("/x".to_owned()), c.is_whitespace(), "{c:?}");
    }
}

#[test]
fn control_codes_are_those_of_the_standard_library() {
    for c in '\0'..=char::MAX {
        let kept = sanitize_return_to(Some(&format!("/x{c}y")));
        assert_eq!(kept.is_none(), c.is_control() || c == '\\', "{c:?}");
    }
}
