use ibox::error::BoxError;
use ibox::palette::BorderPalette;
use ibox::text::{display_text, is_field};

#[test]
fn default_palette_is_single() {
    let p = BorderPalette::single();
    assert_eq!(p.glyphs, vec!['┌', '─', '┐', '│', '└', '┘']);
}

#[test]
fn presets_by_name() {
    assert_eq!(
        BorderPalette::from_arg(&"single".to_string()).unwrap().glyphs,
        vec!['┌', '─', '┐', '│', '└', '┘']
    );
    assert_eq!(
        BorderPalette::from_arg(&"double".to_string()).unwrap().glyphs,
        vec!['╔', '═', '╗', '║', '╚', '╝']
    );
    assert_eq!(
        BorderPalette::from_arg(&"thick".to_string()).unwrap().glyphs,
        vec!['┏', '━', '┓', '┃', '┗', '┛']
    );
    assert_eq!(
        BorderPalette::from_arg(&"curved".to_string()).unwrap().glyphs,
        vec!['╭', '─', '╮', '│', '╰', '╯']
    );
}

#[test]
fn preset_names_win_over_their_own_letters() {
    // "single" and "double" are six characters long, yet they select the
    // preset rather than becoming six border glyphs.
    let p = BorderPalette::from_arg(&"double".to_string()).unwrap();
    assert_ne!(p.glyphs, vec!['d', 'o', 'u', 'b', 'l', 'e']);
}

#[test]
fn explicit_six_glyphs_are_accepted() {
    let p = BorderPalette::from_arg(&"123456".to_string()).unwrap();
    assert_eq!(p.glyphs, vec!['1', '2', '3', '4', '5', '6']);
    let p = BorderPalette::from_chars(vec!['a', 'b', 'c', 'd', 'e', 'f']).unwrap();
    assert_eq!(p.glyphs, vec!['a', 'b', 'c', 'd', 'e', 'f']);
}

#[test]
fn wrong_glyph_count_is_a_configuration_error() {
    assert_eq!(
        BorderPalette::from_chars(vec!['a', 'b', 'c', 'd', 'e']),
        Err(BoxError::Configuration)
    );
    assert_eq!(
        BorderPalette::from_chars(vec!['a', 'b', 'c', 'd', 'e', 'f', 'g']),
        Err(BoxError::Configuration)
    );
    assert_eq!(
        BorderPalette::from_arg(&"12345".to_string()),
        Err(BoxError::Configuration)
    );
    assert_eq!(
        BorderPalette::from_arg(&"1234567".to_string()),
        Err(BoxError::Configuration)
    );
}

#[test]
fn marker_detection() {
    assert!(is_field(&"Question?>".to_string()));
    assert!(is_field(&"?>".to_string()));
    assert!(!is_field(&"Question".to_string()));
    assert!(!is_field(&">".to_string()));
    assert!(!is_field(&"?> ".to_string()));
    assert!(!is_field(&"".to_string()));
}

#[test]
fn display_text_strips_only_a_trailing_marker() {
    assert_eq!(display_text(&"Question?>".to_string()), "Question");
    assert_eq!(display_text(&"?>".to_string()), "");
    assert_eq!(display_text(&"a?>b".to_string()), "a?>b");
    assert_eq!(display_text(&"plain".to_string()), "plain");
}
