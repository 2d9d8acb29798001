//! Content lines and the prompt marker.
//!
//! A content line that ends with the two-character prompt marker `?>` is an
//! interactive field; every other line is static. The text a line shows
//! inside the box is the line with the marker stripped when one is present.
//! Length is measured in characters, not in visual columns.

use vstd::prelude::*;
use vstd::string::*;

verus! {

/// True iff the line ends with the prompt marker and is therefore a field.
pub open spec fn is_field_line(s: Seq<char>) -> bool {
    s.len() >= 2 && s[s.len() - 2] == '?' && s[s.len() - 1] == '>'
}

/// The text a line shows inside the box: the line itself, with the prompt
/// marker stripped when one is present.
pub open spec fn display_of(s: Seq<char>) -> Seq<char> {
    if is_field_line(s) {
        s.take(s.len() - 2)
    } else {
        s
    }
}

/// Decides whether a content line is an interactive field.
pub fn is_field(line: &String) -> (b: bool)
    ensures
        b == is_field_line(line@),
{
    let n = line.as_str().unicode_len();
    if n < 2 {
        false
    } else {
        let c1 = line.as_str().get_char(n - 2);
        let c2 = line.as_str().get_char(n - 1);
        c1 == '?' && c2 == '>'
    }
}

/// The display form of a content line: the marker is stripped from a field,
/// a static line is returned unchanged.
pub fn display_text(line: &String) -> (r: String)
    ensures
        r@ == display_of(line@),
{
    let n = line.as_str().unicode_len();
    if is_field(line) {
        let stripped = line.as_str().substring_char(0, n - 2);
        proof {
            assert(line@.subrange(0, n - 2) =~= display_of(line@));
        }
        stripped.to_owned()
    } else {
        line.clone()
    }
}

/// The number of characters the line occupies inside the box.
pub fn display_len(line: &String) -> (n: usize)
    ensures
        n == display_of(line@).len(),
{
    let n = line.as_str().unicode_len();
    if is_field(line) {
        n - 2
    } else {
        n
    }
}

/// Relies on `String`'s `FromIterator` impl, reached through
/// `Iterator::collect`: the returned string holds exactly the characters of
/// `v`, in order.
#[verifier::external_body]
pub(crate) fn chars_to_string(v: &Vec<char>) -> (r: String)
    ensures
        r@ == v@,
{
    v.iter().collect()
}

/// Appends every character of `s` to `out`, in order.
pub(crate) fn append_str_chars(out: &mut Vec<char>, s: &String)
    ensures
        final(out)@ == old(out)@ + s@,
{
    let n = s.as_str().unicode_len();
    let mut i: usize = 0;
    proof {
        assert(out@ =~= old(out)@ + s@.take(0));
    }
    while i < n
        invariant
            i <= n,
            n == s@.len(),
            out@ == old(out)@ + s@.take(i as int),
        decreases n - i,
    {
        let c = s.as_str().get_char(i);
        out.push(c);
        proof {
            assert(old(out)@ + s@.take(i + 1) =~= (old(out)@ + s@.take(i as int)).push(s@[i as int]));
        }
        i = i + 1;
    }
    proof {
        assert(s@.take(n as int) =~= s@);
    }
}

/// Appends every character of `src` to `out`, in order.
pub(crate) fn append_vec_chars(out: &mut Vec<char>, src: &Vec<char>)
    ensures
        final(out)@ == old(out)@ + src@,
{
    let n = src.len();
    let mut i: usize = 0;
    proof {
        assert(out@ =~= old(out)@ + src@.take(0));
    }
    while i < n
        invariant
            i <= n,
            n == src@.len(),
            out@ == old(out)@ + src@.take(i as int),
        decreases n - i,
    {
        let c = src[i];
        out.push(c);
        proof {
            assert(old(out)@ + src@.take(i + 1) =~= (old(out)@ + src@.take(i as int)).push(src@[i as int]));
        }
        i = i + 1;
    }
    proof {
        assert(src@.take(n as int) =~= src@);
    }
}

/// `n` copies of the glyph `c`.
pub open spec fn fill(c: char, n: nat) -> Seq<char> {
    Seq::new(n, |i: int| c)
}

/// Appends `n` copies of `c` to `out`.
pub(crate) fn push_fill(out: &mut Vec<char>, c: char, n: usize)
    ensures
        final(out)@ == old(out)@ + fill(c, n as nat),
{
    let mut i: usize = 0;
    proof {
        assert(out@ =~= old(out)@ + fill(c, 0));
    }
    while i < n
        invariant
            i <= n,
            out@ == old(out)@ + fill(c, i as nat),
        decreases n - i,
    {
        out.push(c);
        proof {
            assert(old(out)@ + fill(c, (i + 1) as nat) =~= (old(out)@ + fill(c, i as nat)).push(c));
        }
        i = i + 1;
    }
}

} // verus!
