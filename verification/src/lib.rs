//! Core of a modal, keyboard-driven terminal text editor.
//!
//! The crate covers the editing engine: per-tab text buffers with a
//! cursor/viewport coordinate model, selection and clipboard-mediated
//! yank/paste, bounded undo/redo history, multi-tab lifecycle, and the
//! key-dispatch state machine that turns keystrokes into edits.
//! Terminal rendering, syntax highlighting and file-system access are
//! collaborators outside this crate; the editor talks to them through
//! plain values and [`editor::Effect`] requests.

pub mod buffer;
pub mod text;
pub mod keymap;
pub mod chord;
pub mod clipboard;
pub mod colors;
pub mod fileselect;
pub mod editor;
pub mod selection;
pub mod search;
pub mod dispatch;
