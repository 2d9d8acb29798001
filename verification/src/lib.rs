//! Renders a bordered text box on the terminal's diagnostic stream and
//! interactively fills its prompt-marked lines.
//!
//! The layout engine computes a uniform interior width from the longest
//! display line plus a configured padding and synthesizes the three row
//! kinds from a six-glyph border palette. Lines ending in the prompt
//! marker `?>` become interactive fields: the capture loop anchors the
//! cursor right after each field's echoed text, appends printable
//! characters, and commits the field on Enter — or on any unrecognized
//! event, so capture can never deadlock. The committed texts, each sealed
//! with a newline, are joined in declaration order and form the only bytes
//! written to standard output.
//!
//! Terminal work itself — cursor queries and moves, key-event delivery,
//! the writes — is the caller's: the library computes rows, insertion
//! points and state transitions and says in its contracts exactly what the
//! caller must flush and when.

pub mod capture;
pub mod error;
pub mod layout;
pub mod palette;
pub mod text;
