use alpa::command::NewlineBehavior;
use alpa::translate::{process_chunk, ChunkOutcome, Key, KeyOp, TranslatorState};

fn type_op(s: &str) -> KeyOp {
    KeyOp::Text(s.to_string())
}

/// Runs one generation's token stream through the translator, with no
/// cancellation, collecting every instruction and the final outcome.
fn run_stream(nb: NewlineBehavior, chunks: &[&str]) -> (Vec<KeyOp>, ChunkOutcome) {
    let mut st = TranslatorState::start();
    let mut all = Vec::new();
    let mut outcome = ChunkOutcome::Continue;
    for chunk in chunks {
        let (ops, oc) = process_chunk(&mut st, false, nb, chunk);
        all.extend(ops);
        outcome = oc;
        if outcome != ChunkOutcome::Continue {
            break;
        }
    }
    (all, outcome)
}

#[test]
fn enter_stream_types_lines_with_one_enter_at_the_boundary() {
    let (ops, outcome) = run_stream(
        NewlineBehavior::Enter,
        &["Hello", " world\n", "second line"],
    );
    assert_eq!(
        ops,
        vec![
            type_op("Hello"),
            type_op(" world"),
            KeyOp::Press(Key::Return),
            type_op("second line"),
        ]
    );
    assert_eq!(outcome, ChunkOutcome::Continue);
}

#[test]
fn stop_halts_at_the_newline_and_later_text_is_never_typed() {
    let (ops, outcome) = run_stream(NewlineBehavior::Stop, &["abc\n", "def"]);
    assert_eq!(ops, vec![type_op("abc")]);
    assert_eq!(outcome, ChunkOutcome::Stopped);
}

#[test]
fn stop_halts_inside_a_chunk() {
    let mut st = TranslatorState::start();
    let (ops, outcome) = process_chunk(&mut st, false, NewlineBehavior::Stop, "abc\ndef");
    assert_eq!(ops, vec![type_op("abc")]);
    assert_eq!(outcome, ChunkOutcome::Stopped);
}

#[test]
fn shift_enter_wraps_the_enter_in_shift() {
    let (ops, outcome) = run_stream(NewlineBehavior::ShiftEnter, &["a\nb"]);
    assert_eq!(
        ops,
        vec![
            type_op("a"),
            KeyOp::Down(Key::Shift),
            KeyOp::Press(Key::Return),
            KeyOp::Up(Key::Shift),
            type_op("b"),
        ]
    );
    assert_eq!(outcome, ChunkOutcome::Continue);
}

#[test]
fn blank_line_triggers_the_newline_action_twice() {
    let (ops, _) = run_stream(NewlineBehavior::Enter, &["x\n\ny"]);
    assert_eq!(
        ops,
        vec![
            type_op("x"),
            KeyOp::Press(Key::Return),
            KeyOp::Press(Key::Return),
            type_op("y"),
        ]
    );
}

#[test]
fn trailing_newline_at_stream_end_triggers_nothing() {
    let (ops, outcome) = run_stream(NewlineBehavior::Enter, &["a\n"]);
    assert_eq!(ops, vec![type_op("a")]);
    assert_eq!(outcome, ChunkOutcome::Continue);
}

#[test]
fn leading_newline_fires_before_the_first_text() {
    let (ops, _) = run_stream(NewlineBehavior::Enter, &["\nabc"]);
    assert_eq!(ops, vec![KeyOp::Press(Key::Return), type_op("abc")]);
}

#[test]
fn empty_chunk_emits_nothing_and_keeps_state() {
    let (ops, outcome) = run_stream(NewlineBehavior::Enter, &["a\n", "", "b"]);
    assert_eq!(
        ops,
        vec![type_op("a"), KeyOp::Press(Key::Return), type_op("b")]
    );
    assert_eq!(outcome, ChunkOutcome::Continue);
}

#[test]
fn cancellation_halts_before_anything_more_is_typed() {
    let mut st = TranslatorState::start();
    let (ops, outcome) = process_chunk(&mut st, false, NewlineBehavior::Enter, "keep");
    assert_eq!(ops, vec![type_op("keep")]);
    assert_eq!(outcome, ChunkOutcome::Continue);

    // The cancel flag is raised mid-stream: the very next chunk is dropped.
    let (ops, outcome) = process_chunk(&mut st, true, NewlineBehavior::Enter, "dropped");
    assert!(ops.is_empty());
    assert_eq!(outcome, ChunkOutcome::Cancelled);
}

#[test]
fn stop_with_pending_boundary_halts_before_the_next_chunk() {
    let (ops, outcome) = run_stream(NewlineBehavior::Stop, &["no newline yet", "\nmore"]);
    assert_eq!(ops, vec![type_op("no newline yet")]);
    assert_eq!(outcome, ChunkOutcome::Stopped);
}
