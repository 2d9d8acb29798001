//! The interactive input-capture loop, one field at a time.
//!
//! Each field moves through `Idle -> Capturing -> Committed`. While
//! capturing, a printable character is appended to the field's text and the
//! cursor anchor advances one column; Enter, an unrecognized key, or a
//! non-key event commits the field, sealing its text with a newline. The
//! session walks the fields strictly in declaration order and never
//! revisits a committed field; the final output is every field's text,
//! joined in that same order.
//!
//! The caller performs the terminal work: it saves the cursor before a
//! field, makes every returned anchor move flushed (the next read must
//! re-anchor there), and restores the cursor after a commit.

use vstd::prelude::*;
use crate::text::chars_to_string;
use crate::text::append_vec_chars;

verus! {

/// What a key press decodes to.
#[derive(Clone, Copy, Debug, PartialEq, Eq, Structural)]
pub enum KeyCode {
    Enter,
    Char(char),
    Unrecognized,
}

/// One terminal event as the capture loop sees it: a key, or anything else.
#[derive(Clone, Copy, Debug, PartialEq, Eq, Structural)]
pub enum InputEvent {
    Key(KeyCode),
    NonKey,
}

/// The per-field capture states.
#[derive(Clone, Copy, Debug, PartialEq, Eq, Structural)]
pub enum FieldState {
    Idle,
    Capturing,
    Committed,
}

/// What the caller must do after a step: re-anchor the cursor (flushed) at
/// the given position and keep reading, or restore the cursor and move on
/// to the next field.
#[derive(Clone, Copy, Debug, PartialEq, Eq, Structural)]
pub enum StepOutcome {
    Continue(u16, u16),
    Committed,
}

/// True iff the event ends the field. Only a printable character keeps the
/// capture going; Enter, an unrecognized key, and a non-key event all
/// commit it, so the loop can never deadlock on unexpected input.
pub open spec fn commits(e: InputEvent) -> bool {
    !(e matches InputEvent::Key(KeyCode::Char(_)))
}

/// The captured text after one event: a printable character is appended,
/// any other event seals the text with a newline.
pub open spec fn next_text(t: Seq<char>, e: InputEvent) -> Seq<char> {
    match e {
        InputEvent::Key(KeyCode::Char(c)) => t.push(c),
        _ => t.push('\n'),
    }
}

/// An interactive field: where typed characters are echoed, and what has
/// been captured so far.
pub struct Field {
    pub insertion_point: (u16, u16),
    pub captured: Vec<char>,
    pub state: FieldState,
}

impl Field {
    /// An idle field is still empty; a committed one ends with the newline
    /// that sealed it.
    pub open spec fn well_formed(&self) -> bool {
        match self.state {
            FieldState::Idle => self.captured@.len() == 0,
            FieldState::Capturing => true,
            FieldState::Committed => self.captured@.len() >= 1 && self.captured@.last() == '\n',
        }
    }

    /// A fresh, idle field at the given insertion point.
    pub fn new(insertion_point: (u16, u16)) -> (r: Self)
        ensures
            r.insertion_point == insertion_point,
            r.state == FieldState::Idle,
            r.captured@.len() == 0,
            r.well_formed(),
    {
        Field { insertion_point, captured: Vec::new(), state: FieldState::Idle }
    }

    /// The entry transition: the field starts capturing. The caller must
    /// move the cursor, flushed, to the returned anchor — the insertion
    /// point — before the first read.
    pub fn begin(&mut self) -> (anchor: (u16, u16))
        requires
            old(self).state == FieldState::Idle,
        ensures
            final(self).state == FieldState::Capturing,
            final(self).captured == old(self).captured,
            final(self).insertion_point == old(self).insertion_point,
            anchor == old(self).insertion_point,
            old(self).well_formed() ==> final(self).well_formed(),
    {
        self.state = FieldState::Capturing;
        self.insertion_point
    }

    /// One capture step. A printable character is appended and the anchor
    /// advances one column past it; any other event commits the field with
    /// a trailing newline.
    pub fn step(&mut self, event: InputEvent) -> (r: StepOutcome)
        requires
            old(self).state == FieldState::Capturing,
            old(self).insertion_point.0 + old(self).captured@.len() < u16::MAX,
        ensures
            final(self).captured@ == next_text(old(self).captured@, event),
            final(self).insertion_point == old(self).insertion_point,
            final(self).state == (if commits(event) {
                FieldState::Committed
            } else {
                FieldState::Capturing
            }),
            commits(event) ==> r == StepOutcome::Committed,
            !commits(event) ==> (r matches StepOutcome::Continue(col, row) && col == old(self).insertion_point.0 + old(self).captured@.len() + 1 && row == old(self).insertion_point.1),
            final(self).well_formed(),
    {
        match event {
            InputEvent::Key(KeyCode::Char(c)) => {
                self.captured.push(c);
                let col = self.insertion_point.0 + self.captured.len() as u16;
                StepOutcome::Continue(col, self.insertion_point.1)
            },
            _ => {
                self.captured.push('\n');
                self.state = FieldState::Committed;
                StepOutcome::Committed
            },
        }
    }

    /// The captured text as a string.
    pub fn captured_text(&self) -> (r: String)
        ensures
            r@ == self.captured@,
    {
        chars_to_string(&self.captured)
    }
}

/// A field that captures no characters and is then committed — by Enter or
/// by any other non-character event — holds exactly one newline.
pub proof fn lemma_empty_capture_yields_newline(t: Seq<char>, e: InputEvent)
    requires
        t.len() == 0,
        commits(e),
    ensures
        next_text(t, e) == seq!['\n'],
{
    assert(next_text(t, e) =~= seq!['\n']);
}

/// The captured texts of the fields, concatenated in declaration order.
pub open spec fn joined(fs: Seq<Field>) -> Seq<char>
    decreases fs.len(),
{
    if fs.len() == 0 {
        Seq::empty()
    } else {
        joined(fs.drop_last()) + fs.last().captured@
    }
}

/// Captured outputs keep declaration order: the joined text of the fields
/// up to and including `i` is the joined text of those before `i` followed
/// by field `i`'s own text, whatever each field captured.
pub proof fn lemma_joined_take_step(fs: Seq<Field>, i: int)
    requires
        0 <= i < fs.len(),
    ensures
        joined(fs.take(i + 1)) == joined(fs.take(i)) + fs[i].captured@,
{
    assert(fs.take(i + 1).drop_last() =~= fs.take(i));
    assert(fs.take(i + 1).last() == fs[i]);
}

/// The multi-field capture session: fields in declaration order, processed
/// strictly front to back.
pub struct CaptureSession {
    pub fields: Vec<Field>,
    pub current: usize,
}

impl CaptureSession {
    /// Every field before `current` is committed, every field after it is
    /// still idle, and each field is itself well formed.
    pub open spec fn well_formed(&self) -> bool {
        &&& self.current <= self.fields@.len()
        &&& forall|i: int|
            0 <= i < self.current ==> (#[trigger] self.fields@[i]).state == FieldState::Committed
        &&& forall|i: int|
            self.current < i < self.fields@.len() ==> (#[trigger] self.fields@[i]).state
                == FieldState::Idle
        &&& forall|i: int| 0 <= i < self.fields@.len() ==> (#[trigger] self.fields@[i]).well_formed()
    }

    /// A session over the given insertion points: one idle field per point,
    /// in the given order.
    pub fn new(points: &Vec<(u16, u16)>) -> (r: Self)
        ensures
            r.well_formed(),
            r.current == 0,
            r.fields@.len() == points@.len(),
            forall|i: int|
                0 <= i < points@.len() ==> (#[trigger] r.fields@[i]).insertion_point == points@[i]
                    && r.fields@[i].state == FieldState::Idle && r.fields@[i].captured@.len() == 0,
    {
        let mut fields: Vec<Field> = Vec::new();
        let mut i: usize = 0;
        while i < points.len()
            invariant
                i <= points@.len(),
                fields@.len() == i,
                forall|j: int|
                    0 <= j < i ==> (#[trigger] fields@[j]).insertion_point == points@[j]
                        && fields@[j].state == FieldState::Idle && fields@[j].captured@.len() == 0
                        && fields@[j].well_formed(),
            decreases points@.len() - i,
        {
            fields.push(Field::new(points[i]));
            i = i + 1;
        }
        CaptureSession { fields, current: 0 }
    }

    /// True when every field has been committed.
    pub fn finished(&self) -> (b: bool)
        ensures
            b == (self.current == self.fields@.len()),
    {
        self.current == self.fields.len()
    }

    /// Begins capture of the current field and returns the anchor the
    /// caller must move to, flushed: the field's insertion point.
    pub fn begin_current(&mut self) -> (anchor: (u16, u16))
        requires
            old(self).well_formed(),
            old(self).current < old(self).fields@.len(),
            old(self).fields@[old(self).current as int].state == FieldState::Idle,
        ensures
            final(self).well_formed(),
            final(self).current == old(self).current,
            final(self).fields@.len() == old(self).fields@.len(),
            forall|i: int|
                0 <= i < old(self).fields@.len() && i != old(self).current ==> final(self).fields@[i] == old(self).fields@[i],
            final(self).fields@[old(self).current as int].state == FieldState::Capturing,
            final(self).fields@[old(self).current as int].captured@ == old(self).fields@[old(self).current as int].captured@,
            final(self).fields@[old(self).current as int].insertion_point == old(self).fields@[old(self).current as int].insertion_point,
            anchor == old(self).fields@[old(self).current as int].insertion_point,
    {
        let i = self.current;
        let mut f = self.fields.remove(i);
        let anchor = f.begin();
        self.fields.insert(i, f);
        proof {
            assert(self.fields@ =~= old(self).fields@.update(i as int, f));
        }
        anchor
    }

    /// Feeds one event to the current field. On a committing event the
    /// session advances to the next field and the caller restores the
    /// cursor; otherwise the caller re-anchors at the returned position.
    pub fn step_current(&mut self, event: InputEvent) -> (r: StepOutcome)
        requires
            old(self).well_formed(),
            old(self).current < old(self).fields@.len(),
            old(self).fields@[old(self).current as int].state == FieldState::Capturing,
            old(self).fields@[old(self).current as int].insertion_point.0 + old(self).fields@[old(self).current as int].captured@.len() < u16::MAX,
        ensures
            final(self).well_formed(),
            final(self).fields@.len() == old(self).fields@.len(),
            forall|i: int|
                0 <= i < old(self).fields@.len() && i != old(self).current ==> final(self).fields@[i] == old(self).fields@[i],
            final(self).fields@[old(self).current as int].captured@ == next_text(
                old(self).fields@[old(self).current as int].captured@,
                event,
            ),
            final(self).fields@[old(self).current as int].insertion_point == old(self).fields@[old(self).current as int].insertion_point,
            commits(event) ==> final(self).current == old(self).current + 1 && final(self).fields@[old(self).current as int].state == FieldState::Committed && r
                == StepOutcome::Committed,
            !commits(event) ==> final(self).current == old(self).current && final(self).fields@[old(self).current as int].state == FieldState::Capturing && (r matches StepOutcome::Continue(
                col,
                row,
            ) && col == old(self).fields@[old(self).current as int].insertion_point.0 + old(self).fields@[old(self).current as int].captured@.len() + 1 && row == old(self).fields@[old(self).current as int].insertion_point.1),
    {
        let i = self.current;
        let mut f = self.fields.remove(i);
        let outcome = f.step(event);
        self.fields.insert(i, f);
        proof {
            assert(self.fields@ =~= old(self).fields@.update(i as int, f));
        }
        let n = self.fields.len();
        match outcome {
            StepOutcome::Committed => {
                proof {
                    assert(i < n);
                }
                self.current = i + 1;
            },
            StepOutcome::Continue(_, _) => {
            },
        }
        outcome
    }

    /// The final output: every field's captured text, joined in declaration
    /// order. Each committed field already carries its trailing newline, so
    /// the result is the newline-joined list of captured inputs.
    pub fn output(&self) -> (r: String)
        ensures
            r@ == joined(self.fields@),
    {
        let mut out: Vec<char> = Vec::new();
        let mut i: usize = 0;
        proof {
            assert(self.fields@.take(0) =~= Seq::<Field>::empty());
        }
        while i < self.fields.len()
            invariant
                i <= self.fields@.len(),
                out@ == joined(self.fields@.take(i as int)),
            decreases self.fields@.len() - i,
        {
            append_vec_chars(&mut out, &self.fields[i].captured);
            proof {
                lemma_joined_take_step(self.fields@, i as int);
            }
            i = i + 1;
        }
        proof {
            assert(self.fields@.take(self.fields@.len() as int) =~= self.fields@);
        }
        chars_to_string(&out)
    }
}

} // verus!
