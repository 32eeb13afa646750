//! Configuration values the dispatch core is started with.
//!
//! The configuration is loaded from disk outside the library; the library
//! owns its shape as far as the dispatch pipeline reads it — the popup
//! window's size and the ordered command list — and the defaults written on
//! first start. The order of the command list matters: it breaks specificity
//! ties during selection.

use vstd::prelude::*;
use vstd::string::*;

use crate::command::{
    command_wf, Command, CommandType, GenerateCommand, InputMethod, NewlineBehavior, PromptMode,
};
use crate::keycode::Keycode;

verus! {

/// The popup prompt window's size.
#[derive(Clone, Copy, Debug, PartialEq, Eq, Structural)]
pub struct Window {
    pub width: u32,
    pub height: u32,
}

impl Default for Window {
    /// The default popup window: one wide text line.
    fn default() -> (w: Window)
        ensures
            w.width == 640,
            w.height == 32,
    {
        Window { width: 640, height: 32 }
    }
}

/// General settings; none are defined yet.
#[derive(Clone, Copy, Debug, PartialEq, Eq, Structural)]
pub struct General {}

impl Default for General {
    fn default() -> (g: General)
        ensures
            g == (General {  }),
    {
        General {  }
    }
}

/// The template text of the default assistant command.
pub open spec fn default_template() -> Seq<char> {
    "SYSTEM: You are a general AI assistant.\nUSER: {{PROMPT}}\nASSISTANT: "@
}

/// The commands written to a fresh configuration: Ctrl+Escape asks the
/// popup for a prompt, wraps it in a general-assistant template, and types
/// the answer pressing Enter at newlines; Escape alone cancels the
/// generation in flight.
pub fn default_commands() -> (cmds: Vec<Command>)
    ensures
        cmds@.len() == 2,
        command_wf(&cmds@[0]) && command_wf(&cmds@[1]),
        cmds@[0].keys@ == seq![Keycode::LControl, Keycode::Escape],
        cmds@[0].ty matches CommandType::Generate(g) && {
            &&& g.input == InputMethod::SingleLineUi
            &&& g.mode matches PromptMode::Prompt(t) && t@ == default_template()
            &&& g.newline == NewlineBehavior::Enter
        },
        cmds@[1].keys@ == seq![Keycode::Escape],
        cmds@[1].ty == CommandType::Cancel,
{
    let mut generate_keys: Vec<Keycode> = Vec::new();
    generate_keys.push(Keycode::LControl);
    generate_keys.push(Keycode::Escape);
    let template = String::from_str(
        "SYSTEM: You are a general AI assistant.\nUSER: {{PROMPT}}\nASSISTANT: ",
    );
    let generate = Command::new(
        generate_keys,
        CommandType::Generate(
            GenerateCommand {
                input: InputMethod::SingleLineUi,
                mode: PromptMode::Prompt(template),
                newline: NewlineBehavior::Enter,
            },
        ),
    );
    let mut cancel_keys: Vec<Keycode> = Vec::new();
    cancel_keys.push(Keycode::Escape);
    let cancel = Command::new(cancel_keys, CommandType::Cancel);
    let mut cmds: Vec<Command> = Vec::new();
    proof {
        assert(seq![Keycode::LControl, Keycode::Escape].no_duplicates());
        assert(generate.keys@ =~= seq![Keycode::LControl, Keycode::Escape]);
        assert(cancel.keys@ =~= seq![Keycode::Escape]);
    }
    cmds.push(generate);
    cmds.push(cancel);
    cmds
}

} // verus!
