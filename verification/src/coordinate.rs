//! The generation coordinator's decisions.
//!
//! The coordinator consumes one generation request at a time: it marks a
//! generation as in flight, resolves the prompt text (through the popup
//! surface or the clipboard), builds the final prompt, streams tokens
//! through the translator, and clears the in-flight flag on every exit path
//! — normal completion, cancellation, engine failure, or an empty resolved
//! prompt. The blocking calls themselves (popup, clipboard, engine) live
//! outside the library; this module is every decision between them.

use vstd::prelude::*;
use vstd::string::*;

use crate::command::{ClipboardLoad, InputMethod, PromptMode};
use crate::dispatch::DispatchState;
use crate::template::{build_prompt, final_prompt};
use crate::translate::{strokes_of, Key, KeyOp, Stroke};

verus! {

/// An error scoped to a single generation attempt; none terminates the
/// poller or the process.
#[derive(Clone, Copy, Debug, PartialEq, Eq, Structural)]
pub enum HostError {
    /// The clipboard line-select sequence was requested on a platform it is
    /// not defined for.
    UnsupportedPlatform,
    /// The generation engine reported a failure mid-stream.
    EngineError,
    /// The popup prompt surface failed to launch or returned malformed
    /// output.
    PromptSurfaceError,
}

impl HostError {
    /// A short description of the error.
    pub fn describe(&self) -> (s: &'static str)
        ensures
            match self {
                HostError::UnsupportedPlatform => s@ == "clipboard line selection is not supported on this platform"@,
                HostError::EngineError => s@ == "the generation engine failed"@,
                HostError::PromptSurfaceError => s@ == "the prompt surface failed"@,
            },
    {
        match self {
            HostError::UnsupportedPlatform => "clipboard line selection is not supported on this platform",
            HostError::EngineError => "the generation engine failed",
            HostError::PromptSurfaceError => "the prompt surface failed",
        }
    }
}

/// The platform the launcher runs on, as far as the clipboard line-select
/// sequence is concerned: it is defined for macOS only.
#[derive(Clone, Copy, Debug, PartialEq, Eq, Structural)]
pub enum Platform {
    MacOs,
    Other,
}

/// What the coordinator must do to resolve the prompt text for a request.
#[derive(Debug, PartialEq, Eq)]
pub enum PromptPlan {
    /// Ask the popup single-line surface and wait for its reply.
    AskPopup,
    /// Read the clipboard's text, after injecting the given keystrokes
    /// first, if any.
    ReadClipboard(Option<Vec<KeyOp>>),
}

/// The keystrokes that select the current line and copy it on macOS: select
/// to the start of the line with Meta+Shift+Left, copy with Meta+C, then
/// deselect with the right arrow.
pub open spec fn line_select_strokes() -> Seq<Stroke> {
    seq![
        Stroke::Down(Key::Meta),
        Stroke::Down(Key::LShift),
        Stroke::Press(Key::LeftArrow),
        Stroke::Up(Key::LShift),
        Stroke::Up(Key::Meta),
        Stroke::Down(Key::Meta),
        Stroke::Type("C"@),
        Stroke::Up(Key::Meta),
        Stroke::Press(Key::RightArrow),
    ]
}

/// Decides how the prompt text is resolved for the given input method: the
/// popup surface for single-line input; the clipboard otherwise, preceded by
/// the platform's line-select sequence when a line load is requested. The
/// line-select sequence exists only on macOS: anywhere else the request
/// fails with `UnsupportedPlatform` and the generation is aborted.
pub fn prompt_plan(input: &InputMethod, platform: Platform) -> (r: Result<PromptPlan, HostError>)
    ensures
        match input {
            InputMethod::SingleLineUi => r matches Ok(p) && p == PromptPlan::AskPopup,
            InputMethod::Clipboard(c) => match c.load {
                None => r matches Ok(p) && p matches PromptPlan::ReadClipboard(ops) && ops
                    is None,
                Some(ClipboardLoad::Line) => {
                    if platform == Platform::MacOs {
                        r matches Ok(p) && p matches PromptPlan::ReadClipboard(ops)
                            && ops matches Some(v) && strokes_of(v@) == line_select_strokes()
                    } else {
                        r matches Err(e) && e == HostError::UnsupportedPlatform
                    }
                },
            },
        },
{
    match input {
        InputMethod::SingleLineUi => Ok(PromptPlan::AskPopup),
        InputMethod::Clipboard(c) => match c.load {
            None => Ok(PromptPlan::ReadClipboard(None)),
            Some(ClipboardLoad::Line) => {
                if platform == Platform::MacOs {
                    let mut ops: Vec<KeyOp> = Vec::new();
                    ops.push(KeyOp::Down(Key::Meta));
                    ops.push(KeyOp::Down(Key::LShift));
                    ops.push(KeyOp::Press(Key::LeftArrow));
                    ops.push(KeyOp::Up(Key::LShift));
                    ops.push(KeyOp::Up(Key::Meta));
                    ops.push(KeyOp::Down(Key::Meta));
                    ops.push(KeyOp::Text(String::from_str("C")));
                    ops.push(KeyOp::Up(Key::Meta));
                    ops.push(KeyOp::Press(Key::RightArrow));
                    proof {
                        assert(strokes_of(ops@) =~= line_select_strokes());
                    }
                    Ok(PromptPlan::ReadClipboard(Some(ops)))
                } else {
                    Err(HostError::UnsupportedPlatform)
                }
            },
        },
    }
}

/// Marks a generation as in flight. Called by the coordinator as soon as it
/// receives a request, before the prompt is resolved.
pub fn begin_generation(st: &mut DispatchState)
    ensures
        final(st).is_generating,
        final(st).cancel_requested == old(st).cancel_requested,
        final(st).last_dispatched == old(st).last_dispatched,
{
    st.is_generating = true;
}

/// Marks the generation as finished, on every exit path: normal completion,
/// a halt by the `Stop` newline policy, an engine failure, an aborted empty
/// prompt, or cancellation. The in-flight flag always clears — so the
/// poller re-arms its debounce and the same command can fire again on its
/// next press episode — and a cancellation halt consumes the cancel
/// request.
pub fn finish_generation(st: &mut DispatchState, halted_by_cancel: bool)
    ensures
        !final(st).is_generating,
        final(st).cancel_requested == if halted_by_cancel {
            false
        } else {
            old(st).cancel_requested
        },
        final(st).last_dispatched == old(st).last_dispatched,
{
    st.is_generating = false;
    if halted_by_cancel {
        st.cancel_requested = false;
    }
}

/// Builds the final prompt from the resolved text, unless the resolved text
/// is empty: an empty prompt is a deliberate silent no-op, and the
/// generation is aborted instead. Otherwise the prompt is the resolved text
/// under `Autocomplete`, or the template with every `{{PROMPT}}` occurrence
/// replaced by the resolved text under `Prompt`.
pub fn prepare_prompt(mode: &PromptMode, resolved: &str) -> (r: Option<String>)
    ensures
        r is Some <==> resolved@.len() > 0,
        r matches Some(p) ==> p@ == final_prompt(*mode, resolved@),
{
    if resolved.is_empty() {
        None
    } else {
        Some(build_prompt(mode, resolved))
    }
}

} // verus!
