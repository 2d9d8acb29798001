use ibox::capture::{CaptureSession, Field, FieldState, InputEvent, KeyCode, StepOutcome};

#[test]
fn typing_yes_then_enter_captures_yes() {
    let mut s = CaptureSession::new(&vec![(4, 2)]);
    let anchor = s.begin_current();
    assert_eq!(anchor, (4, 2));
    for c in ['y', 'e', 's'] {
        let r = s.step_current(InputEvent::Key(KeyCode::Char(c)));
        assert!(matches!(r, StepOutcome::Continue(_, _)));
    }
    let r = s.step_current(InputEvent::Key(KeyCode::Enter));
    assert_eq!(r, StepOutcome::Committed);
    assert!(s.finished());
    assert_eq!(s.output(), "yes\n");
}

#[test]
fn empty_capture_yields_single_newline() {
    let mut f = Field::new((0, 0));
    f.begin();
    let r = f.step(InputEvent::Key(KeyCode::Enter));
    assert_eq!(r, StepOutcome::Committed);
    assert_eq!(f.captured_text(), "\n");
}

#[test]
fn anchor_advances_one_column_per_character() {
    let mut f = Field::new((10, 5));
    let anchor = f.begin();
    assert_eq!(anchor, (10, 5));
    assert_eq!(f.step(InputEvent::Key(KeyCode::Char('a'))), StepOutcome::Continue(11, 5));
    assert_eq!(f.step(InputEvent::Key(KeyCode::Char('b'))), StepOutcome::Continue(12, 5));
}

#[test]
fn unrecognized_key_commits_the_field() {
    let mut f = Field::new((0, 0));
    f.begin();
    f.step(InputEvent::Key(KeyCode::Char('x')));
    let r = f.step(InputEvent::Key(KeyCode::Unrecognized));
    assert_eq!(r, StepOutcome::Committed);
    assert_eq!(f.state, FieldState::Committed);
    assert_eq!(f.captured_text(), "x\n");
}

#[test]
fn non_key_event_commits_the_field() {
    let mut f = Field::new((0, 0));
    f.begin();
    let r = f.step(InputEvent::NonKey);
    assert_eq!(r, StepOutcome::Committed);
    assert_eq!(f.captured_text(), "\n");
}

#[test]
fn outputs_keep_field_declaration_order() {
    let mut s = CaptureSession::new(&vec![(1, 1), (1, 2), (1, 3)]);
    // First field gets a long text, later ones short ones: order must
    // follow declaration, not length.
    let texts = ["longest", "b", ""];
    for text in texts {
        s.begin_current();
        for c in text.chars() {
            s.step_current(InputEvent::Key(KeyCode::Char(c)));
        }
        s.step_current(InputEvent::Key(KeyCode::Enter));
    }
    assert!(s.finished());
    assert_eq!(s.output(), "longest\nb\n\n");
}

#[test]
fn session_with_no_fields_finishes_immediately_with_empty_output() {
    let s = CaptureSession::new(&Vec::new());
    assert!(s.finished());
    assert_eq!(s.output(), "");
}

#[test]
fn session_tracks_insertion_points_in_order() {
    let pts = vec![(3, 1), (7, 4)];
    let s = CaptureSession::new(&pts);
    assert_eq!(s.fields.len(), 2);
    assert_eq!(s.fields[0].insertion_point, (3, 1));
    assert_eq!(s.fields[1].insertion_point, (7, 4));
    assert!(s.fields.iter().all(|f| f.state == FieldState::Idle));
}
