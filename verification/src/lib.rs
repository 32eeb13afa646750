//! Hotkey-triggered text-generation launcher: the verified core.
//!
//! The library covers the dispatch and streaming pipeline of the launcher:
//! matching held key chords against configured commands (with specificity
//! tie-breaking and debounce), the shared dispatch flags that coordinate the
//! poller with the single generation worker, prompt-template substitution,
//! and the token-to-keystroke translation state machine.
//!
//! Everything that touches the operating system — the keyboard-state reader,
//! the keystroke injector, the clipboard, the popup prompt surface, and the
//! generation engine itself — is an external collaborator: the library only
//! decides, and hands back plain values describing what to do.

pub mod command;
pub mod config;
pub mod coordinate;
pub mod dispatch;
pub mod keycode;
pub mod template;
pub mod translate;
pub mod window;
