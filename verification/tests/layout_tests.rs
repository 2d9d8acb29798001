use ibox::error::BoxError;
use ibox::layout::{bot, center_origin, compute_width, mid, top};
use ibox::palette::BorderPalette;

fn q(lines: &[&str]) -> Vec<String> {
    lines.iter().map(|s| s.to_string()).collect()
}

#[test]
fn width_is_max_display_len_plus_padding() {
    let lines = q(&["Title", "Context", "Question?>"]);
    assert_eq!(compute_width(&lines, 8), Ok(16));
    assert_eq!(compute_width(&lines, 0), Ok(8));
    let lines = q(&["ab"]);
    assert_eq!(compute_width(&lines, 8), Ok(10));
}

#[test]
fn width_counts_display_text_not_marker() {
    // "Question?>" displays as "Question": 8 columns, not 10.
    let lines = q(&["Question?>"]);
    assert_eq!(compute_width(&lines, 0), Ok(8));
}

#[test]
fn empty_query_is_rejected() {
    let lines: Vec<String> = Vec::new();
    assert_eq!(compute_width(&lines, 8), Err(BoxError::EmptyQuery));
}

#[test]
fn middle_row_has_width_plus_three_glyphs() {
    let p = BorderPalette::single();
    let lines = q(&["Title", "Context", "Question?>"]);
    let w = compute_width(&lines, 8).unwrap();
    for line in &lines[1..] {
        let (row, _) = mid(line, &p.glyphs, w, (0, 0));
        assert_eq!(row.chars().count(), w as usize + 3);
    }
}

#[test]
fn top_row_shape() {
    let p = BorderPalette::single();
    let title = String::from("Title");
    let row = top(Some(&title), &p.glyphs, 16);
    assert_eq!(row, format!("┌─Title{}┐", "─".repeat(11)));
}

#[test]
fn titleless_top_omits_fill_segment() {
    let p = BorderPalette::single();
    let row = top(None, &p.glyphs, 16);
    assert_eq!(row, "┌─┐");
}

#[test]
fn mid_row_static_line() {
    let p = BorderPalette::single();
    let line = String::from("Context");
    let (row, ins) = mid(&line, &p.glyphs, 16, (0, 0));
    assert_eq!(row, format!("│Context{}│", " ".repeat(10)));
    assert_eq!(ins, None);
}

#[test]
fn mid_row_field_insertion_point() {
    let p = BorderPalette::single();
    let line = String::from("Question?>");
    let (row, ins) = mid(&line, &p.glyphs, 16, (5, 3));
    assert_eq!(row, format!("│Question{}│", " ".repeat(9)));
    // Column = cursor column at render time + 1 + display length.
    assert_eq!(ins, Some((5 + 1 + 8, 3)));
}

#[test]
fn exact_width_line_gets_only_the_padding_column() {
    let p = BorderPalette::single();
    let line = String::from("abc");
    let w = compute_width(&q(&["abc"]), 0).unwrap();
    assert_eq!(w, 3);
    let (row, _) = mid(&line, &p.glyphs, w, (0, 0));
    assert_eq!(row, "│abc │");
}

#[test]
fn bottom_row_shape() {
    let p = BorderPalette::single();
    let row = bot(&p.glyphs, 16);
    assert_eq!(row, format!("└{}┘", "─".repeat(17)));
}

#[test]
fn rendering_twice_is_byte_identical() {
    let p = BorderPalette::single();
    let title = String::from("Title");
    let line = String::from("Question?>");
    assert_eq!(
        top(Some(&title), &p.glyphs, 16),
        top(Some(&title), &p.glyphs, 16)
    );
    assert_eq!(
        mid(&line, &p.glyphs, 16, (2, 7)).0,
        mid(&line, &p.glyphs, 16, (2, 7)).0
    );
    assert_eq!(bot(&p.glyphs, 16), bot(&p.glyphs, 16));
}

#[test]
fn rows_use_the_given_palette() {
    let p = BorderPalette::double();
    let title = String::from("T");
    assert_eq!(top(Some(&title), &p.glyphs, 2), "╔═T═╗");
    let (row, _) = mid(&String::from("T"), &p.glyphs, 2, (0, 0));
    assert_eq!(row, "║T  ║");
    assert_eq!(bot(&p.glyphs, 2), "╚═══╝");
}

#[test]
fn centered_origin() {
    // 80x24 terminal, interior width 16, three content lines.
    assert_eq!(center_origin((80, 24), 16, 3), (30, 9));
}
