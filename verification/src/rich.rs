//! The rich error type the shim adapts: a textual rendering plus a captured
//! call-stack snapshot, strictly more informative than the minimal "standard
//! error" abstraction.

use crate::capability::DebugRender;
use crate::capability::Render;
use vstd::prelude::*;

verus! {

/// A captured call-stack snapshot: one description per stack frame, recorded
/// at the moment an error was created. Diagnostic data only; no program
/// logic reads it.
#[derive(Debug, Clone, PartialEq, Eq)]
pub struct Backtrace {
    /// The frame descriptions, innermost first.
    pub frames: Vec<String>,
}

impl Backtrace {
    /// Builds a snapshot from its frame descriptions.
    pub fn new(frames: Vec<String>) -> (r: Backtrace)
        ensures
            r.frames == frames,
    {
        Backtrace { frames }
    }
}

/// The rich error: a message that is its textual rendering, and the
/// call-stack snapshot captured where the error arose.
#[derive(Debug, Clone, PartialEq, Eq)]
pub struct RichError {
    /// The human-readable rendering of the error.
    pub message: String,
    /// The snapshot captured when the error was created.
    pub backtrace: Backtrace,
}

impl RichError {
    /// Builds a rich error from its rendering and its snapshot.
    pub fn new(message: String, backtrace: Backtrace) -> (r: RichError)
        ensures
            r.message == message,
            r.backtrace == backtrace,
    {
        RichError { message, backtrace }
    }

    /// The call-stack snapshot captured when this error was created.
    pub fn backtrace(&self) -> (r: &Backtrace)
        ensures
            *r == self.backtrace,
    {
        &self.backtrace
    }
}

impl Render for RichError {
    /// The rich error renders as its message, verbatim.
    open spec fn render_spec(&self) -> Seq<char> {
        self.message@
    }

    fn render(&self) -> (r: String) {
        self.message.clone()
    }
}

impl DebugRender for RichError {
    /// The debug-style rendering of the rich error is its message as well:
    /// the snapshot is reported through `backtrace`, not through text.
    open spec fn debug_render_spec(&self) -> Seq<char> {
        self.message@
    }

    fn debug_render(&self) -> (r: String) {
        self.message.clone()
    }
}

} // verus!
