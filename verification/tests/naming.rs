use opengl_project_generator::naming::{sanitize_name, yes_no};

#[test]
fn sanitizes_typical_names() {
    assert_eq!(sanitize_name("my_opengl_app"), "my_opengl_app");
    assert_eq!(sanitize_name("  My OpenGL App  "), "my_opengl_app");
    assert_eq!(sanitize_name("Hello-World!"), "hello-world");
    assert_eq!(sanitize_name("__init__"), "init");
    assert_eq!(sanitize_name("a.b/c\\d"), "a_b_c_d");
}

#[test]
fn non_ascii_characters_become_underscores() {
    assert_eq!(sanitize_name("café"), "caf");
    assert_eq!(sanitize_name("Ünïcode name"), "n_code_name");
    assert_eq!(sanitize_name("\u{3000}x\u{a0}"), "x");
}

#[test]
fn nothing_may_be_left_of_a_name() {
    assert_eq!(sanitize_name(""), "");
    assert_eq!(sanitize_name("   "), "");
    assert_eq!(sanitize_name("!!!"), "");
    assert_eq!(sanitize_name("_ _"), "");
}

#[test]
fn sanitizing_twice_changes_nothing() {
    for raw in ["  My App!! ", "__x__", "Ω-mega", "a  b", "-dash-", "ÀB_c"] {
        let once = sanitize_name(raw);
        assert_eq!(sanitize_name(&once), once, "{raw}");
        assert!(once.chars().all(|c| c.is_ascii_lowercase() || c.is_ascii_digit() || c == '_' || c == '-'));
        assert!(!once.starts_with('_') && !once.ends_with('_'));
    }
}

#[test]
fn yes_no_names_a_choice() {
    assert_eq!(yes_no(true), "yes");
    assert_eq!(yes_no(false), "no");
}
