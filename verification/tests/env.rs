use alfred::env::{is_debug, local_preferences, theme_subtext, version_build, Subtext};

#[test]
fn subtext_mode_is_read() {
    assert_eq!(Some(Subtext::Always), theme_subtext(Some("0")));
    assert_eq!(Some(Subtext::AlternativeActions), theme_subtext(Some("1")));
    assert_eq!(Some(Subtext::SelectedResult), theme_subtext(Some("2")));
    assert_eq!(Some(Subtext::Never), theme_subtext(Some("3")));
    assert_eq!(None, theme_subtext(Some("4")));
    assert_eq!(None, theme_subtext(Some("")));
    assert_eq!(None, theme_subtext(Some("00")));
    assert_eq!(None, theme_subtext(None));
}

#[test]
fn debug_panel_is_read() {
    assert!(is_debug(Some("1")));
    assert!(!is_debug(Some("0")));
    assert!(!is_debug(Some("11")));
    assert!(!is_debug(Some("")));
    assert!(!is_debug(None));
}

#[test]
fn build_is_read() {
    assert_eq!(Some(768), version_build(Some("768")));
    assert_eq!(Some(768), version_build(Some("+768")));
    assert_eq!(Some(-768), version_build(Some("-768")));
    assert_eq!(Some(7), version_build(Some("007")));
    assert_eq!(Some(0), version_build(Some("-0")));
    assert_eq!(Some(i32::MAX), version_build(Some("2147483647")));
    assert_eq!(Some(i32::MIN), version_build(Some("-2147483648")));
    assert_eq!(None, version_build(Some("2147483648")));
    assert_eq!(None, version_build(Some("-2147483649")));
    assert_eq!(None, version_build(Some("")));
    assert_eq!(None, version_build(Some("+")));
    assert_eq!(None, version_build(Some("-")));
    assert_eq!(None, version_build(Some(" 768")));
    assert_eq!(None, version_build(Some("768 ")));
    assert_eq!(None, version_build(Some("7.68")));
    assert_eq!(None, version_build(Some("٣")));
    assert_eq!(None, version_build(None));
}

#[test]
fn local_preferences_have_four_parts() {
    assert_eq!(
        Some(vec![
            "/Users/Crayons/Alfred.alfredpreferences".to_string(),
            "preferences".to_string(),
            "local".to_string(),
            "adbd4f66".to_string()
        ]),
        local_preferences(Some("/Users/Crayons/Alfred.alfredpreferences"), Some("adbd4f66"))
    );
    assert_eq!(None, local_preferences(None, Some("adbd4f66")));
    assert_eq!(None, local_preferences(Some("/prefs"), None));
    assert_eq!(None, local_preferences(None, None));
}
