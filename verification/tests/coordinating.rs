use alpa::command::{Clipboard, ClipboardLoad, InputMethod, NewlineBehavior, PromptMode};
use alpa::config::{default_commands, General, Window};
use alpa::coordinate::{
    begin_generation, finish_generation, prepare_prompt, prompt_plan, HostError, Platform,
    PromptPlan,
};
use alpa::command::CommandType;
use alpa::dispatch::DispatchState;
use alpa::keycode::Keycode;
use alpa::translate::{process_chunk, ChunkOutcome, Key, KeyOp, TranslatorState};
use alpa::window::Args;

fn fresh_state() -> DispatchState {
    DispatchState {
        is_generating: false,
        cancel_requested: false,
        last_dispatched: None,
    }
}

#[test]
fn popup_input_asks_the_popup() {
    let plan = prompt_plan(&InputMethod::SingleLineUi, Platform::Other);
    assert_eq!(plan, Ok(PromptPlan::AskPopup));
}

#[test]
fn plain_clipboard_reads_without_keystrokes() {
    let input = InputMethod::Clipboard(Clipboard { load: None });
    let plan = prompt_plan(&input, Platform::Other);
    assert_eq!(plan, Ok(PromptPlan::ReadClipboard(None)));
}

#[test]
fn line_load_on_macos_selects_copies_and_deselects() {
    let input = InputMethod::Clipboard(Clipboard {
        load: Some(ClipboardLoad::Line),
    });
    let plan = prompt_plan(&input, Platform::MacOs);
    let expected = vec![
        KeyOp::Down(Key::Meta),
        KeyOp::Down(Key::LShift),
        KeyOp::Press(Key::LeftArrow),
        KeyOp::Up(Key::LShift),
        KeyOp::Up(Key::Meta),
        KeyOp::Down(Key::Meta),
        KeyOp::Text("C".to_string()),
        KeyOp::Up(Key::Meta),
        KeyOp::Press(Key::RightArrow),
    ];
    assert_eq!(plan, Ok(PromptPlan::ReadClipboard(Some(expected))));
}

#[test]
fn line_load_elsewhere_is_unsupported() {
    let input = InputMethod::Clipboard(Clipboard {
        load: Some(ClipboardLoad::Line),
    });
    let plan = prompt_plan(&input, Platform::Other);
    assert_eq!(plan, Err(HostError::UnsupportedPlatform));
}

#[test]
fn error_descriptions_name_the_failure() {
    assert_eq!(
        HostError::UnsupportedPlatform.describe(),
        "clipboard line selection is not supported on this platform"
    );
    assert_eq!(HostError::EngineError.describe(), "the generation engine failed");
    assert_eq!(
        HostError::PromptSurfaceError.describe(),
        "the prompt surface failed"
    );
}

#[test]
fn empty_resolved_prompt_aborts_silently() {
    let mut st = fresh_state();
    begin_generation(&mut st);
    assert!(st.is_generating);

    let prompt = prepare_prompt(&PromptMode::Autocomplete, "");
    assert_eq!(prompt, None);

    // The abort path still clears the in-flight flag.
    finish_generation(&mut st, false);
    assert!(!st.is_generating);
}

#[test]
fn nonempty_prompt_is_built() {
    let mode = PromptMode::Prompt("say {{PROMPT}}".to_string());
    assert_eq!(prepare_prompt(&mode, "hi"), Some("say hi".to_string()));
}

#[test]
fn finish_without_cancel_keeps_cancel_flag() {
    let mut st = fresh_state();
    begin_generation(&mut st);
    st.cancel_requested = true;
    finish_generation(&mut st, false);
    assert!(!st.is_generating);
    assert!(st.cancel_requested);
}

#[test]
fn cancelled_generation_resets_both_flags() {
    let mut st = fresh_state();
    begin_generation(&mut st);
    st.cancel_requested = true;

    // The raised flag halts the stream at the next chunk boundary.
    let mut tr = TranslatorState::start();
    let (ops, outcome) = process_chunk(&mut tr, st.cancel_requested, NewlineBehavior::Enter, "x");
    assert!(ops.is_empty());
    assert_eq!(outcome, ChunkOutcome::Cancelled);

    finish_generation(&mut st, outcome == ChunkOutcome::Cancelled);
    assert!(!st.is_generating);
    assert!(!st.cancel_requested);
}

#[test]
fn default_window_is_one_wide_line() {
    let w = Window::default();
    assert_eq!(w.width, 640);
    assert_eq!(w.height, 32);
    let _ = General::default();
}

#[test]
fn popup_args_take_the_configured_size() {
    let w = Window {
        width: 800,
        height: 40,
    };
    let a = Args::from_window(&w);
    assert_eq!(a.width, 800);
    assert_eq!(a.height, 40);
}

#[test]
fn default_commands_bind_assistant_and_cancel() {
    let cmds = default_commands();
    assert_eq!(cmds.len(), 2);

    assert_eq!(cmds[0].keys, vec![Keycode::LControl, Keycode::Escape]);
    match &cmds[0].ty {
        CommandType::Generate(g) => {
            assert_eq!(g.input, InputMethod::SingleLineUi);
            assert_eq!(g.newline, NewlineBehavior::Enter);
            match &g.mode {
                PromptMode::Prompt(t) => assert_eq!(
                    t,
                    "SYSTEM: You are a general AI assistant.\nUSER: {{PROMPT}}\nASSISTANT: "
                ),
                other => panic!("expected a template, got {:?}", other),
            }
        }
        other => panic!("expected a generate command, got {:?}", other),
    }

    assert_eq!(cmds[1].keys, vec![Keycode::Escape]);
    assert!(matches!(cmds[1].ty, CommandType::Cancel));
}
