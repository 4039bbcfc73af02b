//! The capability traits the shim composes over: textual rendering, a
//! debug-style rendering, the minimal "standard error" capability set, and
//! the rich-error capability of reporting a call-stack snapshot.

use crate::rich::Backtrace;
use vstd::prelude::*;

verus! {

/// The fixed text that the minimal-error description accessor returns,
/// whatever error the wrapper holds.
pub open spec fn placeholder_description() -> Seq<char> {
    "An error has occurred."@
}

/// The capability of producing a human-readable textual rendering.
///
/// An upstream error type implements this to say what its rendering is;
/// `render_spec` is the mathematical statement of that text.
pub trait Render {
    /// The text that `render` produces.
    spec fn render_spec(&self) -> Seq<char>;

    /// Produces the human-readable rendering.
    fn render(&self) -> (r: String)
        ensures
            r@ == self.render_spec(),
    ;
}

/// The capability of producing a debug-style rendering, aimed at a
/// maintainer rather than an end user.
pub trait DebugRender {
    /// The text that `debug_render` produces.
    spec fn debug_render_spec(&self) -> Seq<char>;

    /// Produces the debug-style rendering.
    fn debug_render(&self) -> (r: String)
        ensures
            r@ == self.debug_render_spec(),
    ;
}

/// The minimal "standard error" capability set: a textual rendering
/// (inherited from `Render`) plus a coarse description.
pub trait MinimalError: Render {
    /// The text that `description` produces.
    spec fn description_spec(&self) -> Seq<char>;

    /// A coarse, human-readable description of the error.
    fn description(&self) -> (r: String)
        ensures
            r@ == self.description_spec(),
    ;
}

/// The rich-error capability: reporting the call-stack snapshot captured
/// when the error arose.
pub trait Fail {
    /// The snapshot that `backtrace` reports, if any.
    spec fn backtrace_spec(&self) -> Option<Backtrace>;

    /// Reports the captured call-stack snapshot, if one is available.
    fn backtrace(&self) -> (r: Option<&Backtrace>)
        ensures
            match r {
                Some(b) => self.backtrace_spec() == Some(*b),
                None => self.backtrace_spec() is None,
            },
    ;
}

} // verus!
