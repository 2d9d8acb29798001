//! Error kinds for the box renderer and capture loop.
//!
//! Every failure is fatal to a run; the caller maps each kind to a
//! diagnostic message and a non-zero exit status.

use vstd::prelude::*;

verus! {

/// The error kinds a run can end with.
///
/// `Configuration` covers malformed settings such as a border palette that
/// does not hold exactly six glyphs. `EmptyQuery` is raised when no content
/// line at all was supplied. `TerminalQuery` stands for a failed cursor or
/// size query, and `Io` for a failed write to the diagnostic stream or to
/// standard output; both of those arise only at the terminal boundary.
#[derive(Clone, Copy, Debug, PartialEq, Eq, Structural)]
pub enum BoxError {
    Configuration,
    EmptyQuery,
    TerminalQuery,
    Io,
}

} // verus!
