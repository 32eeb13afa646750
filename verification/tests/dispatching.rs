use alpa::command::{
    eq_generate, Command, CommandType, GenerateCommand, InputMethod, NewlineBehavior, PromptMode,
};
use alpa::coordinate::{begin_generation, finish_generation};
use alpa::dispatch::{poller_tick, select_command, DispatchState, TickAction};
use alpa::keycode::Keycode;

fn generate_spec(tag: &str) -> GenerateCommand {
    GenerateCommand {
        input: InputMethod::SingleLineUi,
        mode: PromptMode::Prompt(tag.to_string()),
        newline: NewlineBehavior::Enter,
    }
}

fn commands() -> Vec<Command> {
    vec![
        Command::new(
            vec![Keycode::LControl, Keycode::Escape],
            CommandType::Generate(generate_spec("two keys")),
        ),
        Command::new(vec![Keycode::Escape], CommandType::Cancel),
    ]
}

fn fresh_state() -> DispatchState {
    DispatchState {
        is_generating: false,
        cancel_requested: false,
        last_dispatched: None,
    }
}

#[test]
fn select_prefers_more_keys() {
    let cmds = commands();
    let pressed = vec![Keycode::LControl, Keycode::Escape];
    // Both chords are pressed; the two-key chord is more specific.
    assert_eq!(select_command(&cmds, &pressed), Some(0));
}

#[test]
fn select_falls_back_to_less_specific() {
    let cmds = commands();
    let pressed = vec![Keycode::Escape];
    assert_eq!(select_command(&cmds, &pressed), Some(1));
}

#[test]
fn select_tie_takes_earliest_configured() {
    let cmds = vec![
        Command::new(vec![Keycode::A], CommandType::Cancel),
        Command::new(vec![Keycode::B], CommandType::Cancel),
    ];
    let pressed = vec![Keycode::A, Keycode::B];
    assert_eq!(select_command(&cmds, &pressed), Some(0));
}

#[test]
fn select_nothing_when_no_chord_matches() {
    let cmds = commands();
    assert_eq!(select_command(&cmds, &vec![Keycode::A]), None);
}

#[test]
fn held_chord_dispatches_exactly_once() {
    let cmds = commands();
    let pressed = vec![Keycode::LControl, Keycode::Escape];
    let mut st = fresh_state();

    // First tick of the press episode: the request goes out.
    let action = poller_tick(&cmds, &pressed, &mut st);
    match &action {
        TickAction::Dispatch(g) => assert!(eq_generate(g, &generate_spec("two keys"))),
        other => panic!("expected a dispatch, got {:?}", other),
    }

    // The coordinator picks the request up; the chord stays held.
    begin_generation(&mut st);
    for _ in 0..5 {
        let action = poller_tick(&cmds, &pressed, &mut st);
        assert_eq!(action, TickAction::Idle);
    }
}

#[test]
fn same_command_redispatches_after_generation_finishes() {
    let cmds = commands();
    let pressed = vec![Keycode::LControl, Keycode::Escape];
    let mut st = fresh_state();

    assert!(matches!(
        poller_tick(&cmds, &pressed, &mut st),
        TickAction::Dispatch(_)
    ));
    begin_generation(&mut st);
    assert_eq!(poller_tick(&cmds, &pressed, &mut st), TickAction::Idle);

    // The generation completes; the next press episode fires again.
    finish_generation(&mut st, false);
    assert!(!st.is_generating);
    assert!(matches!(
        poller_tick(&cmds, &pressed, &mut st),
        TickAction::Dispatch(_)
    ));
}

#[test]
fn cancel_command_raises_flag_without_blocking() {
    let cmds = commands();
    let mut st = fresh_state();
    begin_generation(&mut st);

    let action = poller_tick(&cmds, &vec![Keycode::Escape], &mut st);
    assert_eq!(action, TickAction::Cancel);
    assert!(st.cancel_requested);
    // Cancel is routed outside the channel: the in-flight flag is untouched.
    assert!(st.is_generating);
}

#[test]
fn debounce_goes_by_value_not_by_binding() {
    // Two different chords bound to the same generation: once one has been
    // dispatched, holding the other is suppressed too while the generation
    // runs, because the debounce compares the descriptions by value.
    let cmds = vec![
        Command::new(vec![Keycode::A], CommandType::Generate(generate_spec("same"))),
        Command::new(vec![Keycode::B], CommandType::Generate(generate_spec("same"))),
    ];
    let mut st = fresh_state();

    assert!(matches!(
        poller_tick(&cmds, &vec![Keycode::A], &mut st),
        TickAction::Dispatch(_)
    ));
    begin_generation(&mut st);
    assert_eq!(poller_tick(&cmds, &vec![Keycode::B], &mut st), TickAction::Idle);
}

#[test]
fn distinct_command_is_not_debounced() {
    let spec_a = generate_spec("a");
    let spec_b = generate_spec("b");
    let cmds = vec![
        Command::new(vec![Keycode::A], CommandType::Generate(spec_a)),
        Command::new(vec![Keycode::B], CommandType::Generate(spec_b.clone())),
    ];
    let mut st = fresh_state();

    assert!(matches!(
        poller_tick(&cmds, &vec![Keycode::A], &mut st),
        TickAction::Dispatch(_)
    ));
    begin_generation(&mut st);
    // A different generate command is not suppressed by the debounce memory.
    match poller_tick(&cmds, &vec![Keycode::B], &mut st) {
        TickAction::Dispatch(g) => assert!(eq_generate(&g, &spec_b)),
        other => panic!("expected a dispatch, got {:?}", other),
    }
}
