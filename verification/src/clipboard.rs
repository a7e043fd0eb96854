//! The clipboard stand-in. The real system clipboard is an external
//! collaborator reached from the surrounding application; the editor
//! core only asks for clipboard traffic through effects. This module
//! supplies the fallback used when no system clipboard is available:
//! reads come back empty, writes are dropped, nothing ever fails.

use vstd::prelude::*;

verus! {

/// The error a clipboard provider can report; yank and paste degrade
/// to a status message when it occurs, buffer state unaffected.
#[derive(Clone, Copy, PartialEq, Eq, Structural, Debug)]
pub struct ClipboardError;

/// A no-op clipboard: an acceptable substitute wherever the system
/// clipboard is absent.
pub struct DummyClipboard;

impl DummyClipboard {
    /// Building the stand-in never fails.
    pub fn new() -> (r: Result<DummyClipboard, ClipboardError>)
        ensures
            r is Ok,
    {
        Ok(DummyClipboard)
    }

    /// Reading the stand-in always yields the empty text.
    pub fn get_contents(&mut self) -> (r: Result<String, ClipboardError>)
        ensures
            (r matches Ok(s) && s@ == Seq::<char>::empty()),
    {
        Ok(String::new())
    }

    /// Writing to the stand-in drops the text and succeeds.
    pub fn set_contents(&mut self, _contents: String) -> (r: Result<(), ClipboardError>)
        ensures
            r is Ok,
    {
        Ok(())
    }
}

} // verus!
