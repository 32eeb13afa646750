//! The hotkey poller's per-tick decision.
//!
//! Every tick the poller samples the pressed keys, picks the single most
//! specific matching command (more keys win; ties go to the earliest
//! configured command), and dispatches it: a generate command is sent at most
//! once per press episode (debounce), a cancel command raises the shared
//! cancellation flag. The sampling loop itself lives outside the library;
//! this module is the pure decision it runs each tick.

use vstd::prelude::*;

use crate::command::{
    chord_pressed, eq_generate, generate_eq, Command, CommandType, GenerateCommand,
};
use crate::keycode::Keycode;

verus! {

/// The shared dispatch flags, mutated by the poller and the coordinator.
pub struct DispatchState {
    /// True strictly while a generation is in flight.
    pub is_generating: bool,
    /// Set by the poller on a cancel command; consumed between tokens by the
    /// streaming callback.
    pub cancel_requested: bool,
    /// Debounce memory: the last generate command dispatched, cleared
    /// whenever no generation is in flight.
    pub last_dispatched: Option<GenerateCommand>,
}

/// What one poll tick asks the surrounding loop to do.
#[derive(Debug, PartialEq, Eq)]
pub enum TickAction {
    /// Send this generation request to the coordinator.
    Dispatch(GenerateCommand),
    /// A cancel command fired: the cancellation flag has been raised.
    Cancel,
    /// Nothing to do this tick.
    Idle,
}

/// Command `i` exists and its chord is pressed.
pub open spec fn matches_at(commands: Seq<Command>, pressed: Seq<Keycode>, i: int) -> bool {
    &&& 0 <= i < commands.len()
    &&& chord_pressed(commands[i].keys@, pressed)
}

/// Command `i` is the selected match: it matches, no match has more keys,
/// and among matches with as many keys it is the earliest configured.
pub open spec fn is_selected(commands: Seq<Command>, pressed: Seq<Keycode>, i: int) -> bool {
    &&& matches_at(commands, pressed, i)
    &&& forall|j: int|
        matches_at(commands, pressed, j) ==> commands[j].keys@.len() <= commands[i].keys@.len()
    &&& forall|j: int|
        matches_at(commands, pressed, j) && commands[j].keys@.len() == commands[i].keys@.len()
            ==> i <= j
}

/// At most one command is the selected match.
pub proof fn lemma_selected_unique(
    commands: Seq<Command>,
    pressed: Seq<Keycode>,
    i: int,
    j: int,
)
    requires
        is_selected(commands, pressed, i),
        is_selected(commands, pressed, j),
    ensures
        i == j,
{
    assert(commands[i].keys@.len() <= commands[j].keys@.len());
    assert(commands[j].keys@.len() <= commands[i].keys@.len());
}

/// The index selected on this tick, if any command matches.
pub open spec fn spec_selected(commands: Seq<Command>, pressed: Seq<Keycode>) -> Option<int> {
    if exists|i: int| is_selected(commands, pressed, i) {
        Some(choose|i: int| is_selected(commands, pressed, i))
    } else {
        None
    }
}

/// The state and action of one poll tick, given the commands, the keys
/// sampled this tick, and the shared state as the tick begins: clear the
/// debounce memory if no generation is in flight, then act on the selected
/// command, suppressing a generate command equal to the debounce memory.
pub open spec fn spec_tick(
    commands: Seq<Command>,
    pressed: Seq<Keycode>,
    st: DispatchState,
) -> (TickAction, DispatchState) {
    let armed = if st.is_generating {
        st.last_dispatched
    } else {
        None
    };
    let st0 = (DispatchState { last_dispatched: armed, ..st });
    match spec_selected(commands, pressed) {
        None => (TickAction::Idle, st0),
        Some(i) => match commands[i].ty {
            CommandType::Generate(g) => if armed matches Some(p) && generate_eq(p, g) {
                (TickAction::Idle, st0)
            } else {
                (
                    TickAction::Dispatch(g),
                    (DispatchState { last_dispatched: Some(g), ..st0 }),
                )
            },
            CommandType::Cancel => (
                TickAction::Cancel,
                (DispatchState { cancel_requested: true, ..st0 }),
            ),
        },
    }
}

/// Picks the most specific pressed command: among the commands whose chord
/// is currently pressed, the one with the most keys, and of those the
/// earliest configured. Returns its index, or nothing when no chord matches.
pub fn select_command(commands: &Vec<Command>, pressed: &Vec<Keycode>) -> (r: Option<usize>)
    ensures
        match r {
            Some(i) => is_selected(commands@, pressed@, i as int),
            None => forall|j: int| !matches_at(commands@, pressed@, j),
        },
{
    let mut best: Option<usize> = None;
    let mut i: usize = 0;
    while i < commands.len()
        invariant
            i <= commands@.len(),
            match best {
                Some(b) => {
                    &&& b < i
                    &&& matches_at(commands@, pressed@, b as int)
                    &&& forall|j: int|
                        0 <= j < i && matches_at(commands@, pressed@, j) ==> commands@[j].keys@.len()
                            <= commands@[b as int].keys@.len()
                    &&& forall|j: int|
                        0 <= j < i && matches_at(commands@, pressed@, j)
                            && commands@[j].keys@.len() == commands@[b as int].keys@.len() ==> b
                            <= j
                },
                None => forall|j: int| 0 <= j < i ==> !matches_at(commands@, pressed@, j),
            },
        decreases commands@.len() - i,
    {
        if commands[i].is_pressed(pressed) {
            match best {
                None => {
                    best = Some(i);
                },
                Some(b) => {
                    if commands[i].keys.len() > commands[b].keys.len() {
                        best = Some(i);
                    }
                },
            }
        }
        i = i + 1;
    }
    best
}

/// One poll tick: re-arms the debounce when no generation is in flight,
/// selects the most specific pressed command, and acts on it. The returned
/// action is exactly what `spec_tick` prescribes, and the shared state is
/// updated the same way. The poller never touches `is_generating`.
pub fn poller_tick(
    commands: &Vec<Command>,
    pressed: &Vec<Keycode>,
    st: &mut DispatchState,
) -> (action: TickAction)
    ensures
        (action, *final(st)) == spec_tick(commands@, pressed@, *old(st)),
        final(st).is_generating == old(st).is_generating,
{
    if !st.is_generating {
        st.last_dispatched = None;
    }
    let selected = select_command(commands, pressed);
    match selected {
        None => {
            proof {
                assert(spec_selected(commands@, pressed@) is None);
            }
            TickAction::Idle
        },
        Some(i) => {
            proof {
                let c = choose|c: int| is_selected(commands@, pressed@, c);
                lemma_selected_unique(commands@, pressed@, i as int, c);
            }
            match &commands[i].ty {
                CommandType::Generate(g) => {
                    let suppressed = match &st.last_dispatched {
                        Some(p) => eq_generate(p, g),
                        None => false,
                    };
                    if suppressed {
                        TickAction::Idle
                    } else {
                        st.last_dispatched = Some(g.clone());
                        TickAction::Dispatch(g.clone())
                    }
                },
                CommandType::Cancel => {
                    st.cancel_requested = true;
                    TickAction::Cancel
                },
            }
        },
    }
}

/// The actions and final state of a run of poll ticks, one per sampled key
/// set, threading the shared state from tick to tick.
pub open spec fn run_ticks(
    commands: Seq<Command>,
    presses: Seq<Seq<Keycode>>,
    st: DispatchState,
) -> (Seq<TickAction>, DispatchState)
    decreases presses.len(),
{
    if presses.len() == 0 {
        (Seq::<TickAction>::empty(), st)
    } else {
        let (a, st1) = spec_tick(commands, presses[0], st);
        let (rest, stf) = run_ticks(commands, presses.drop_first(), st1);
        (seq![a] + rest, stf)
    }
}

/// This tick selects a generate command whose description equals `g`.
pub open spec fn selects_generate(
    commands: Seq<Command>,
    pressed: Seq<Keycode>,
    g: GenerateCommand,
) -> bool {
    exists|i: int|
        #[trigger] is_selected(commands, pressed, i) && match commands[i].ty {
            CommandType::Generate(h) => generate_eq(h, g),
            CommandType::Cancel => false,
        }
}

/// A tick that selects a generate command equal to the debounce memory,
/// while a generation is in flight, does nothing and changes nothing.
pub proof fn lemma_tick_suppressed(
    commands: Seq<Command>,
    pressed: Seq<Keycode>,
    st: DispatchState,
    g: GenerateCommand,
)
    requires
        st.is_generating,
        st.last_dispatched matches Some(p) && generate_eq(p, g),
        selects_generate(commands, pressed, g),
    ensures
        spec_tick(commands, pressed, st) == (TickAction::Idle, st),
{
    let i = choose|i: int|
        #[trigger] is_selected(commands, pressed, i) && match commands[i].ty {
            CommandType::Generate(h) => generate_eq(h, g),
            CommandType::Cancel => false,
        };
    let c = choose|c: int| is_selected(commands, pressed, c);
    lemma_selected_unique(commands, pressed, i, c);
}

/// Debounce law: while a generation stays in flight and every tick keeps
/// selecting the same generate command that is already in the debounce
/// memory, no tick of the run dispatches again and the shared state never
/// changes. Together with the dispatching tick that armed the memory, a
/// chord held across any number of ticks reaches the coordinator exactly
/// once per press episode.
pub proof fn lemma_held_chord_dispatches_once(
    commands: Seq<Command>,
    presses: Seq<Seq<Keycode>>,
    st: DispatchState,
    g: GenerateCommand,
)
    requires
        st.is_generating,
        st.last_dispatched matches Some(p) && generate_eq(p, g),
        forall|t: int|
            0 <= t < presses.len() ==> selects_generate(commands, #[trigger] presses[t], g),
    ensures
        run_ticks(commands, presses, st).0.len() == presses.len(),
        forall|t: int|
            0 <= t < presses.len() ==> run_ticks(commands, presses, st).0[t] == TickAction::Idle,
        run_ticks(commands, presses, st).1 == st,
    decreases presses.len(),
{
    if presses.len() > 0 {
        lemma_tick_suppressed(commands, presses[0], st, g);
        assert(forall|t: int|
            0 <= t < presses.drop_first().len() ==> selects_generate(
                commands,
                #[trigger] presses.drop_first()[t],
                g,
            ));
        lemma_held_chord_dispatches_once(commands, presses.drop_first(), st, g);
    }
}

/// A whole press episode dispatches exactly once: from a state with no
/// generation in flight, the first tick that selects a generate command
/// sends it, and — once the coordinator has marked the generation in
/// flight — every further tick of the continuously held chord is idle,
/// however many ticks observe it.
pub proof fn lemma_press_episode_dispatches_once(
    commands: Seq<Command>,
    first_press: Seq<Keycode>,
    later_presses: Seq<Seq<Keycode>>,
    st: DispatchState,
    g: GenerateCommand,
)
    requires
        !st.is_generating,
        selects_generate(commands, first_press, g),
        forall|t: int|
            0 <= t < later_presses.len() ==> selects_generate(
                commands,
                #[trigger] later_presses[t],
                g,
            ),
    ensures
        spec_tick(commands, first_press, st).0 matches TickAction::Dispatch(h) && generate_eq(
            h,
            g,
        ),
        ({
            let armed = spec_tick(commands, first_press, st).1;
            let in_flight = (DispatchState { is_generating: true, ..armed });
            forall|t: int|
                0 <= t < later_presses.len() ==> run_ticks(commands, later_presses, in_flight).0[t]
                    == TickAction::Idle
        }),
{
    lemma_redispatch_after_completion(commands, first_press, st, g);
    let armed = spec_tick(commands, first_press, st).1;
    let in_flight = (DispatchState { is_generating: true, ..armed });
    lemma_held_chord_dispatches_once(commands, later_presses, in_flight, g);
}

/// Re-arming law: once no generation is in flight, a tick whose selected
/// command is a generate command always dispatches it — after a generation
/// completes, the same command fires again on its next press episode.
pub proof fn lemma_redispatch_after_completion(
    commands: Seq<Command>,
    pressed: Seq<Keycode>,
    st: DispatchState,
    g: GenerateCommand,
)
    requires
        !st.is_generating,
        selects_generate(commands, pressed, g),
    ensures
        spec_tick(commands, pressed, st).0 matches TickAction::Dispatch(h) && generate_eq(h, g),
{
    let i = choose|i: int|
        #[trigger] is_selected(commands, pressed, i) && match commands[i].ty {
            CommandType::Generate(h) => generate_eq(h, g),
            CommandType::Cancel => false,
        };
    let c = choose|c: int| is_selected(commands, pressed, c);
    lemma_selected_unique(commands, pressed, i, c);
}

} // verus!
