//! The layout engine: interior width and the three row kinds.
//!
//! The box is as wide as its longest display line plus the configured
//! padding. A top row shows the optional title between the upper corners,
//! each middle row shows one display line between the vertical borders, and
//! the bottom row closes the box. Rows are functions of content, palette
//! and width alone, so rendering the same content twice yields
//! byte-identical rows.

use vstd::prelude::*;
use vstd::string::*;
use crate::error::BoxError;
use crate::text::{is_field_line, display_of, fill, is_field, display_text, display_len};
use crate::text::{chars_to_string, append_str_chars, push_fill};

verus! {

/// The greatest display length over a sequence of content lines.
pub open spec fn max_display_len(lines: Seq<String>) -> nat
    decreases lines.len(),
{
    if lines.len() == 0 {
        0
    } else {
        let rest = max_display_len(lines.drop_last());
        let last = display_of(lines.last()@).len();
        if last >= rest {
            last
        } else {
            rest
        }
    }
}

/// The top row: the two upper corners around one horizontal glyph and,
/// when a title is shown, the title followed by horizontal fill out to the
/// interior width. Without a title the fill segment is omitted entirely.
pub open spec fn top_row(title: Option<Seq<char>>, b: Seq<char>, w: nat) -> Seq<char> {
    match title {
        Option::None => seq![b[0], b[1], b[2]],
        Option::Some(t) => seq![b[0], b[1]] + t + fill(b[1], (w - t.len()) as nat) + seq![b[2]],
    }
}

/// A middle row: vertical border, display text, spaces out to the interior
/// width plus the single padding column, vertical border.
pub open spec fn mid_row(text: Seq<char>, b: Seq<char>, w: nat) -> Seq<char> {
    seq![b[3]] + display_of(text) + fill(' ', (w - display_of(text).len() + 1) as nat) + seq![
        b[3],
    ]
}

/// The bottom row: the two lower corners around `w + 1` horizontal glyphs.
pub open spec fn bot_row(b: Seq<char>, w: nat) -> Seq<char> {
    seq![b[4], b[1]] + fill(b[1], w) + seq![b[5]]
}

/// All rows of the box, top to bottom: a top row showing the first line's
/// display text as title, one middle row for every later line, and the
/// bottom row.
pub open spec fn box_rows(lines: Seq<String>, b: Seq<char>, w: nat) -> Seq<Seq<char>> {
    if lines.len() == 0 {
        Seq::empty()
    } else {
        seq![top_row(Option::Some(display_of(lines[0]@)), b, w)] + Seq::new(
            (lines.len() - 1) as nat,
            |i: int| mid_row(lines[i + 1]@, b, w),
        ) + seq![bot_row(b, w)]
    }
}

proof fn lemma_max_display_len_step(lines: Seq<String>, i: int)
    requires
        0 <= i < lines.len(),
    ensures
        max_display_len(lines.take(i + 1)) == ({
            let rest = max_display_len(lines.take(i));
            let d = display_of(lines[i]@).len();
            if d >= rest {
                d
            } else {
                rest
            }
        }),
{
    assert(lines.take(i + 1).drop_last() =~= lines.take(i));
    assert(lines.take(i + 1).last() == lines[i]);
}

/// No display text is longer than the greatest display length.
pub proof fn lemma_max_display_len_bound(lines: Seq<String>, i: int)
    requires
        0 <= i < lines.len(),
    ensures
        display_of(lines[i]@).len() <= max_display_len(lines),
    decreases lines.len(),
{
    if i == lines.len() - 1 {
        assert(lines.last() == lines[i]);
    } else {
        lemma_max_display_len_bound(lines.drop_last(), i);
        assert(lines.drop_last()[i] == lines[i]);
    }
}

proof fn lemma_max_display_len_take(lines: Seq<String>, i: int)
    requires
        0 <= i <= lines.len(),
    ensures
        max_display_len(lines.take(i)) <= max_display_len(lines),
    decreases lines.len() - i,
{
    if i == lines.len() {
        assert(lines.take(i) =~= lines);
    } else {
        lemma_max_display_len_step(lines, i);
        lemma_max_display_len_take(lines, i + 1);
    }
}

/// Interior width of the box: the greatest display length over all content
/// lines plus the configured padding. An empty line set is rejected as
/// `EmptyQuery`; a non-empty one always yields the width.
pub fn compute_width(lines: &Vec<String>, padding: u16) -> (r: Result<u16, BoxError>)
    requires
        max_display_len(lines@) + padding <= u16::MAX,
    ensures
        r is Ok <==> lines@.len() > 0,
        r matches Ok(w) ==> w == max_display_len(lines@) + padding,
        r matches Ok(w) ==> forall|i: int|
            0 <= i < lines@.len() ==> display_of(#[trigger] lines@[i]@).len() <= w,
        r matches Err(e) ==> e == BoxError::EmptyQuery,
{
    if lines.len() == 0 {
        return Err(BoxError::EmptyQuery);
    }
    let mut m: usize = 0;
    let mut i: usize = 0;
    proof {
        assert(lines@.take(0) =~= Seq::<String>::empty());
    }
    while i < lines.len()
        invariant
            i <= lines@.len(),
            m == max_display_len(lines@.take(i as int)),
            max_display_len(lines@) + padding <= u16::MAX,
        decreases lines@.len() - i,
    {
        let d = display_len(&lines[i]);
        proof {
            lemma_max_display_len_step(lines@, i as int);
        }
        if d >= m {
            m = d;
        }
        i = i + 1;
    }
    proof {
        assert(lines@.take(lines@.len() as int) =~= lines@);
        assert forall|j: int| 0 <= j < lines@.len() implies display_of(
            #[trigger] lines@[j]@,
        ).len() <= max_display_len(lines@) by {
            lemma_max_display_len_bound(lines@, j);
        }
    }
    Ok(m as u16 + padding)
}

/// The top row of the box for an optional, already stripped title.
pub fn top(title: Option<&String>, border: &Vec<char>, length: u16) -> (r: String)
    requires
        border@.len() == 6,
        title matches Some(t) ==> t@.len() <= length,
    ensures
        title matches Some(t) ==> r@ == top_row(Option::Some(t@), border@, length as nat)
            && r@.len() == length + 3,
        title is None ==> r@ == top_row(Option::None, border@, length as nat) && r@.len() == 3,
{
    let mut row: Vec<char> = Vec::new();
    row.push(border[0]);
    row.push(border[1]);
    match title {
        Option::Some(t) => {
            append_str_chars(&mut row, t);
            let tlen = t.as_str().unicode_len();
            push_fill(&mut row, border[1], length as usize - tlen);
            row.push(border[2]);
            proof {
                assert(row@ =~= top_row(Option::Some(t@), border@, length as nat));
            }
            chars_to_string(&row)
        },
        Option::None => {
            row.push(border[2]);
            proof {
                assert(row@ =~= top_row(Option::None, border@, length as nat));
            }
            chars_to_string(&row)
        },
    }
}

/// A middle row together with, for a field line, the insertion point that
/// sits immediately after the echoed display text. `pos` is the live
/// cursor position at render time; a static line ignores it.
pub fn mid(text: &String, border: &Vec<char>, length: u16, pos: (u16, u16)) -> (r: (
    String,
    Option<(u16, u16)>,
))
    requires
        border@.len() == 6,
        display_of(text@).len() <= length,
        is_field_line(text@) ==> pos.0 + 1 + display_of(text@).len() <= u16::MAX,
    ensures
        r.0@ == mid_row(text@, border@, length as nat),
        r.0@.len() == length + 3,
        is_field_line(text@) ==> (r.1 matches Some(p) && p.0 == pos.0 + 1 + display_of(
            text@,
        ).len() && p.1 == pos.1),
        !is_field_line(text@) ==> r.1 is None,
{
    let mut row: Vec<char> = Vec::new();
    row.push(border[3]);
    let d = display_text(text);
    let dlen = d.as_str().unicode_len();
    append_str_chars(&mut row, &d);
    push_fill(&mut row, ' ', length as usize - dlen + 1);
    row.push(border[3]);
    proof {
        assert(row@ =~= mid_row(text@, border@, length as nat));
    }
    let s = chars_to_string(&row);
    if is_field(text) {
        (s, Some((pos.0 + 1 + dlen as u16, pos.1)))
    } else {
        (s, None)
    }
}

/// The bottom row of the box.
pub fn bot(border: &Vec<char>, length: u16) -> (r: String)
    requires
        border@.len() == 6,
    ensures
        r@ == bot_row(border@, length as nat),
        r@.len() == length + 3,
{
    let mut row: Vec<char> = Vec::new();
    row.push(border[4]);
    row.push(border[1]);
    push_fill(&mut row, border[1], length as usize);
    row.push(border[5]);
    proof {
        assert(row@ =~= bot_row(border@, length as nat));
    }
    chars_to_string(&row)
}

/// The origin that centers a box of interior width `length` and `nlines`
/// content lines on a terminal of the given size.
pub fn center_origin(size: (u16, u16), length: u16, nlines: u16) -> (r: (u16, u16))
    requires
        size.0 / 2 >= length / 2 + 2,
        size.1 / 2 >= nlines / 2 + 2,
    ensures
        r.0 == size.0 / 2 - length / 2 - 2,
        r.1 == size.1 / 2 - nlines / 2 - 2,
{
    (size.0 / 2 - length / 2 - 2, size.1 / 2 - nlines / 2 - 2)
}

/// Every middle row has exactly `w + 3` glyphs: the two vertical borders,
/// one padding column, and `w` content columns.
pub proof fn lemma_mid_row_len(text: Seq<char>, b: Seq<char>, w: nat)
    requires
        b.len() == 6,
        display_of(text).len() <= w,
    ensures
        mid_row(text, b, w).len() == w + 3,
{
}

/// Rendering the same content list with the same palette and width twice
/// produces byte-identical rows: each row is a function of content,
/// palette and width alone.
pub proof fn lemma_render_idempotent(
    lines: Seq<String>,
    b: Seq<char>,
    w: nat,
    r1: Seq<Seq<char>>,
    r2: Seq<Seq<char>>,
)
    requires
        r1 == box_rows(lines, b, w),
        r2 == box_rows(lines, b, w),
    ensures
        r1 == r2,
{
}

/// A line exactly as long as the interior width gets no fill beyond the
/// single padding column.
pub proof fn lemma_exact_width_no_fill(text: Seq<char>, b: Seq<char>, w: nat)
    requires
        b.len() == 6,
        display_of(text).len() == w,
    ensures
        mid_row(text, b, w) == seq![b[3]] + display_of(text) + seq![' '] + seq![b[3]],
{
    assert(fill(' ', 1) =~= seq![' ']);
}

/// A title-less top row holds only the two upper corners and a single
/// horizontal glyph: the title fill segment is omitted entirely.
pub proof fn lemma_no_title_top(b: Seq<char>, w: nat)
    requires
        b.len() == 6,
    ensures
        top_row(Option::None, b, w) == seq![b[0], b[1], b[2]],
        top_row(Option::None, b, w).len() == 3,
{
}

} // verus!
