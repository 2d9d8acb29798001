//! The border palette: the six glyphs that draw the box.
//!
//! A palette holds, in order: top-left corner, horizontal, top-right
//! corner, vertical, bottom-left corner, bottom-right corner. Four named
//! presets are offered; any other border argument must spell out exactly
//! six glyphs, and anything else is a configuration error.

use vstd::prelude::*;
use vstd::string::*;
use crate::error::BoxError;
use crate::text::append_str_chars;

verus! {

/// The glyphs of the default single-line preset.
pub open spec fn single_glyphs() -> Seq<char> {
    seq!['\u{250c}', '\u{2500}', '\u{2510}', '\u{2502}', '\u{2514}', '\u{2518}']
}

/// The glyphs of the double-line preset.
pub open spec fn double_glyphs() -> Seq<char> {
    seq!['\u{2554}', '\u{2550}', '\u{2557}', '\u{2551}', '\u{255a}', '\u{255d}']
}

/// The glyphs of the thick-line preset.
pub open spec fn thick_glyphs() -> Seq<char> {
    seq!['\u{250f}', '\u{2501}', '\u{2513}', '\u{2503}', '\u{2517}', '\u{251b}']
}

/// The glyphs of the curved-corner preset.
pub open spec fn curved_glyphs() -> Seq<char> {
    seq!['\u{256d}', '\u{2500}', '\u{256e}', '\u{2502}', '\u{2570}', '\u{256f}']
}

/// The six border glyphs, fixed at configuration time.
#[derive(Clone, Debug, PartialEq, Eq)]
pub struct BorderPalette {
    pub glyphs: Vec<char>,
}

impl BorderPalette {
    /// A palette is well formed exactly when it holds six glyphs.
    pub open spec fn well_formed(&self) -> bool {
        self.glyphs@.len() == 6
    }

    /// The default single-line palette.
    pub fn single() -> (r: Self)
        ensures
            r.glyphs@ == single_glyphs(),
            r.well_formed(),
    {
        let mut g: Vec<char> = Vec::new();
        g.push('\u{250c}');
        g.push('\u{2500}');
        g.push('\u{2510}');
        g.push('\u{2502}');
        g.push('\u{2514}');
        g.push('\u{2518}');
        proof {
            assert(g@ =~= single_glyphs());
        }
        BorderPalette { glyphs: g }
    }

    /// The double-line palette.
    pub fn double() -> (r: Self)
        ensures
            r.glyphs@ == double_glyphs(),
            r.well_formed(),
    {
        let mut g: Vec<char> = Vec::new();
        g.push('\u{2554}');
        g.push('\u{2550}');
        g.push('\u{2557}');
        g.push('\u{2551}');
        g.push('\u{255a}');
        g.push('\u{255d}');
        proof {
            assert(g@ =~= double_glyphs());
        }
        BorderPalette { glyphs: g }
    }

    /// The thick-line palette.
    pub fn thick() -> (r: Self)
        ensures
            r.glyphs@ == thick_glyphs(),
            r.well_formed(),
    {
        let mut g: Vec<char> = Vec::new();
        g.push('\u{250f}');
        g.push('\u{2501}');
        g.push('\u{2513}');
        g.push('\u{2503}');
        g.push('\u{2517}');
        g.push('\u{251b}');
        proof {
            assert(g@ =~= thick_glyphs());
        }
        BorderPalette { glyphs: g }
    }

    /// The curved-corner palette.
    pub fn curved() -> (r: Self)
        ensures
            r.glyphs@ == curved_glyphs(),
            r.well_formed(),
    {
        let mut g: Vec<char> = Vec::new();
        g.push('\u{256d}');
        g.push('\u{2500}');
        g.push('\u{256e}');
        g.push('\u{2502}');
        g.push('\u{2570}');
        g.push('\u{256f}');
        proof {
            assert(g@ =~= curved_glyphs());
        }
        BorderPalette { glyphs: g }
    }

    /// Builds a palette from caller-supplied glyphs. Exactly six are
    /// required; any other count is a configuration error.
    pub fn from_chars(glyphs: Vec<char>) -> (r: Result<Self, BoxError>)
        ensures
            glyphs@.len() == 6 ==> (r matches Ok(p) && p.glyphs@ == glyphs@ && p.well_formed()),
            glyphs@.len() != 6 ==> r == Err::<Self, BoxError>(BoxError::Configuration),
    {
        if glyphs.len() == 6 {
            Ok(BorderPalette { glyphs })
        } else {
            Err(BoxError::Configuration)
        }
    }

    /// Resolves a border argument: one of the four preset names, or an
    /// explicit string of exactly six glyphs. Anything else is a
    /// configuration error.
    pub fn from_arg(arg: &String) -> (r: Result<Self, BoxError>)
        ensures
            arg@ == "single"@ ==> (r matches Ok(p) && p.glyphs@ == single_glyphs()),
            arg@ == "double"@ ==> (r matches Ok(p) && p.glyphs@ == double_glyphs()),
            arg@ == "thick"@ ==> (r matches Ok(p) && p.glyphs@ == thick_glyphs()),
            arg@ == "curved"@ ==> (r matches Ok(p) && p.glyphs@ == curved_glyphs()),
            !(arg@ == "single"@ || arg@ == "double"@ || arg@ == "thick"@ || arg@ == "curved"@)
                ==> (arg@.len() == 6 ==> (r matches Ok(p) && p.glyphs@ == arg@)),
            !(arg@ == "single"@ || arg@ == "double"@ || arg@ == "thick"@ || arg@ == "curved"@)
                ==> (arg@.len() != 6 ==> r == Err::<Self, BoxError>(BoxError::Configuration)),
            r matches Ok(p) ==> p.well_formed(),
    {
        proof {
            reveal_strlit("single");
            reveal_strlit("double");
            reveal_strlit("thick");
            reveal_strlit("curved");
            assert("single"@.len() == 6 && "single"@[0] == 's');
            assert("double"@.len() == 6 && "double"@[0] == 'd');
            assert("thick"@.len() == 5);
            assert("curved"@.len() == 6 && "curved"@[0] == 'c');
        }
        if *arg == String::from_str("single") {
            Ok(Self::single())
        } else if *arg == String::from_str("double") {
            Ok(Self::double())
        } else if *arg == String::from_str("thick") {
            Ok(Self::thick())
        } else if *arg == String::from_str("curved") {
            Ok(Self::curved())
        } else {
            let mut g: Vec<char> = Vec::new();
            append_str_chars(&mut g, arg);
            Self::from_chars(g)
        }
    }
}

} // verus!
