//! Commands: a key chord bound to an action.
//!
//! A `Command` couples a non-empty set of keys (the chord) with what to do
//! when the chord is held: either start a generation described by a
//! `GenerateCommand`, or cancel the generation in flight. The command list is
//! loaded once at startup and read-only afterwards; dispatch picks among the
//! commands whose chord is currently pressed.

use vstd::prelude::*;

use crate::keycode::Keycode;

verus! {

/// How the clipboard should be loaded before it is read.
#[derive(Clone, Copy, Debug, PartialEq, Eq, Structural)]
pub enum ClipboardLoad {
    /// Select the current line and copy it before reading.
    Line,
}

/// Clipboard input settings: optionally load something into the clipboard
/// before reading its text.
#[derive(Clone, Copy, Debug, PartialEq, Eq)]
pub struct Clipboard {
    pub load: Option<ClipboardLoad>,
}

/// Where the prompt text comes from.
#[derive(Clone, Copy, Debug, PartialEq, Eq)]
pub enum InputMethod {
    /// Ask the user through the single-line popup surface.
    SingleLineUi,
    /// Read the system clipboard.
    Clipboard(Clipboard),
}

/// How the resolved text becomes the final prompt.
#[derive(Debug, PartialEq, Eq)]
pub enum PromptMode {
    /// Use the resolved text verbatim.
    Autocomplete,
    /// Substitute the resolved text into a template at every occurrence of
    /// the literal placeholder `{{PROMPT}}`.
    Prompt(String),
}

/// What to do at each newline boundary of the generated text.
#[derive(Clone, Copy, Debug, PartialEq, Eq, Structural)]
pub enum NewlineBehavior {
    /// Halt the generation at the first newline boundary.
    Stop,
    /// Press Enter.
    Enter,
    /// Press Enter while holding Shift.
    ShiftEnter,
}

/// A full description of one generation: input source, prompt mode, and
/// newline policy.
#[derive(Debug, PartialEq, Eq)]
pub struct GenerateCommand {
    pub input: InputMethod,
    pub mode: PromptMode,
    pub newline: NewlineBehavior,
}

/// The action a command triggers.
#[derive(Debug, PartialEq, Eq)]
pub enum CommandType {
    Generate(GenerateCommand),
    Cancel,
}

/// A key chord bound to an action.
#[derive(Debug, PartialEq, Eq)]
pub struct Command {
    pub keys: Vec<Keycode>,
    pub ty: CommandType,
}

/// Structural equality of prompt modes, comparing template text by content.
pub open spec fn prompt_mode_eq(a: PromptMode, b: PromptMode) -> bool {
    match (a, b) {
        (PromptMode::Autocomplete, PromptMode::Autocomplete) => true,
        (PromptMode::Prompt(s), PromptMode::Prompt(t)) => s@ == t@,
        _ => false,
    }
}

/// Structural equality of generation descriptions: equal input method, equal
/// prompt mode (templates by content), equal newline policy.
pub open spec fn generate_eq(a: GenerateCommand, b: GenerateCommand) -> bool {
    &&& a.input == b.input
    &&& prompt_mode_eq(a.mode, b.mode)
    &&& a.newline == b.newline
}

/// A chord is satisfied exactly when every key it requires is among the keys
/// currently pressed: the pressed set is a superset of the chord. Keys held
/// beyond the chord do not matter.
pub open spec fn chord_pressed(keys: Seq<Keycode>, pressed: Seq<Keycode>) -> bool {
    forall|i: int| 0 <= i < keys.len() ==> pressed.contains(#[trigger] keys[i])
}

/// A well-formed command requires at least one key and lists no key twice.
pub open spec fn command_wf(c: &Command) -> bool {
    &&& c.keys@.len() > 0
    &&& c.keys@.no_duplicates()
}

/// Whether a list of keycodes contains the given code.
fn contains_code(v: &Vec<Keycode>, k: Keycode) -> (r: bool)
    ensures
        r == v@.contains(k),
{
    let mut i: usize = 0;
    while i < v.len()
        invariant
            i <= v@.len(),
            forall|j: int| 0 <= j < i ==> v@[j] != k,
        decreases v@.len() - i,
    {
        if v[i] == k {
            return true;
        }
        i = i + 1;
    }
    false
}

/// Decides `prompt_mode_eq` on concrete values.
pub fn eq_prompt_mode(a: &PromptMode, b: &PromptMode) -> (r: bool)
    ensures
        r == prompt_mode_eq(*a, *b),
{
    match (a, b) {
        (PromptMode::Autocomplete, PromptMode::Autocomplete) => true,
        (PromptMode::Prompt(s), PromptMode::Prompt(t)) => s.eq(t),
        _ => false,
    }
}

/// Decides equality of input methods on concrete values.
pub fn eq_input_method(a: &InputMethod, b: &InputMethod) -> (r: bool)
    ensures
        r == (a == b),
{
    match (a, b) {
        (InputMethod::SingleLineUi, InputMethod::SingleLineUi) => true,
        (InputMethod::Clipboard(c), InputMethod::Clipboard(d)) => match (c.load, d.load) {
            (None, None) => true,
            (Some(x), Some(y)) => x == y,
            _ => false,
        },
        _ => false,
    }
}

/// Decides `generate_eq` on concrete values.
pub fn eq_generate(a: &GenerateCommand, b: &GenerateCommand) -> (r: bool)
    ensures
        r == generate_eq(*a, *b),
{
    eq_input_method(&a.input, &b.input) && eq_prompt_mode(&a.mode, &b.mode) && a.newline
        == b.newline
}

impl Command {
    /// Builds a command from the given chord and action, dropping duplicate
    /// keys so that the chord is a set: its length is the command's
    /// specificity.
    pub fn new(keys: Vec<Keycode>, ty: CommandType) -> (c: Command)
        requires
            keys@.len() > 0,
        ensures
            command_wf(&c),
            c.keys@.to_set() == keys@.to_set(),
            keys@.no_duplicates() ==> c.keys@ == keys@,
            c.ty == ty,
    {
        let mut uniq: Vec<Keycode> = Vec::new();
        let mut i: usize = 0;
        while i < keys.len()
            invariant
                i <= keys@.len(),
                uniq@.no_duplicates(),
                forall|j: int| 0 <= j < i ==> uniq@.contains(#[trigger] keys@[j]),
                forall|j: int| 0 <= j < uniq@.len() ==> keys@.contains(#[trigger] uniq@[j]),
                i > 0 ==> uniq@.len() > 0,
                keys@.no_duplicates() ==> uniq@ == keys@.take(i as int),
            decreases keys@.len() - i,
        {
            proof {
                if keys@.no_duplicates() && keys@.take(i as int).contains(keys@[i as int]) {
                    let m = choose|m: int|
                        0 <= m < i && keys@.take(i as int)[m] == keys@[i as int];
                    assert(keys@[m] == keys@[i as int]);
                    assert(false);
                }
            }
            if !contains_code(&uniq, keys[i]) {
                let ghost prev = uniq@;
                uniq.push(keys[i]);
                proof {
                    assert forall|j: int| 0 <= j < i + 1 implies uniq@.contains(
                        #[trigger] keys@[j],
                    ) by {
                        if j < i {
                            let m = choose|m: int| 0 <= m < prev.len() && prev[m] == keys@[j];
                            assert(uniq@[m] == keys@[j]);
                        } else {
                            assert(uniq@[prev.len() as int] == keys@[j]);
                        }
                    }
                    if keys@.no_duplicates() {
                        assert(uniq@ =~= keys@.take(i + 1));
                    }
                }
            }
            i = i + 1;
        }
        proof {
            assert(uniq@.to_set() =~= keys@.to_set()) by {
                assert forall|k: Keycode| uniq@.contains(k) implies keys@.contains(k) by {
                    let j = choose|j: int| 0 <= j < uniq@.len() && uniq@[j] == k;
                    assert(keys@.contains(uniq@[j]));
                }
                assert forall|k: Keycode| keys@.contains(k) implies uniq@.contains(k) by {
                    let j = choose|j: int| 0 <= j < keys@.len() && keys@[j] == k;
                    assert(uniq@.contains(keys@[j]));
                }
            }
        }
        Command { keys: uniq, ty }
    }

    /// True exactly when the currently pressed keys are a superset of this
    /// command's chord: extra, unrelated keys never disqualify a match.
    pub fn is_pressed(&self, keycodes: &Vec<Keycode>) -> (r: bool)
        ensures
            r == chord_pressed(self.keys@, keycodes@),
    {
        let mut i: usize = 0;
        while i < self.keys.len()
            invariant
                i <= self.keys@.len(),
                forall|j: int| 0 <= j < i ==> keycodes@.contains(#[trigger] self.keys@[j]),
            decreases self.keys@.len() - i,
        {
            if !contains_code(keycodes, self.keys[i]) {
                return false;
            }
            i = i + 1;
        }
        true
    }
}

impl Clone for PromptMode {
    /// Cloning keeps the value: the template text is copied character for
    /// character.
    fn clone(&self) -> (r: PromptMode)
        ensures
            r == *self,
    {
        match self {
            PromptMode::Autocomplete => PromptMode::Autocomplete,
            PromptMode::Prompt(t) => PromptMode::Prompt(t.clone()),
        }
    }
}

impl Clone for GenerateCommand {
    /// Cloning keeps the value.
    fn clone(&self) -> (r: GenerateCommand)
        ensures
            r == *self,
    {
        GenerateCommand { input: self.input, mode: self.mode.clone(), newline: self.newline }
    }
}

impl Clone for CommandType {
    /// Cloning keeps the value.
    fn clone(&self) -> (r: CommandType)
        ensures
            r == *self,
    {
        match self {
            CommandType::Generate(g) => CommandType::Generate(g.clone()),
            CommandType::Cancel => CommandType::Cancel,
        }
    }
}

impl Clone for Command {
    /// Cloning keeps the chord and the action.
    fn clone(&self) -> (r: Command)
        ensures
            r.keys@ == self.keys@,
            r.ty == self.ty,
    {
        Command { keys: self.keys.clone(), ty: self.ty.clone() }
    }
}

/// Holding more keys can only keep a chord satisfied: if a chord is pressed
/// under some key set, it stays pressed under any superset of that set.
pub proof fn lemma_chord_monotonic(keys: Seq<Keycode>, pressed: Seq<Keycode>, more: Seq<Keycode>)
    requires
        chord_pressed(keys, pressed),
        forall|k: Keycode| pressed.contains(k) ==> more.contains(k),
    ensures
        chord_pressed(keys, more),
{
}

/// Keys unrelated to a chord never change whether it is pressed: adding any
/// keys outside the chord to the pressed set leaves the match exactly as it
/// was.
pub proof fn lemma_unrelated_keys_irrelevant(
    keys: Seq<Keycode>,
    pressed: Seq<Keycode>,
    extra: Seq<Keycode>,
)
    requires
        forall|k: Keycode| extra.contains(k) ==> !keys.contains(k),
    ensures
        chord_pressed(keys, pressed + extra) == chord_pressed(keys, pressed),
{
    if chord_pressed(keys, pressed + extra) {
        assert forall|i: int| 0 <= i < keys.len() implies pressed.contains(#[trigger] keys[i]) by {
            let m = choose|m: int| 0 <= m < (pressed + extra).len() && (pressed + extra)[m]
                == keys[i];
            if m < pressed.len() {
                assert(pressed[m] == keys[i]);
            } else {
                assert(extra[m - pressed.len()] == keys[i]);
                assert(extra.contains(keys[i]));
                assert(keys.contains(keys[i]));
            }
        }
    }
    if chord_pressed(keys, pressed) {
        assert forall|i: int| 0 <= i < keys.len() implies (pressed + extra).contains(
            #[trigger] keys[i],
        ) by {
            let m = choose|m: int| 0 <= m < pressed.len() && pressed[m] == keys[i];
            assert((pressed + extra)[m] == keys[i]);
        }
    }
}

} // verus!
