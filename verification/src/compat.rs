//! A compatibility wrapper around an error type.
//!
//! `Compat` adapts a richly-typed error so that code which only understands
//! the minimal "standard error" capability set can consume it, while the
//! wrapped value stays recoverable in full.

use crate::capability::placeholder_description;
use crate::capability::DebugRender;
use crate::capability::Fail;
use crate::capability::MinimalError;
use crate::capability::Render;
use crate::rich::Backtrace;
use crate::rich::RichError;
use vstd::prelude::*;

verus! {

/// A compatibility wrapper holding exactly one value of an error type `E`.
///
/// The wrapper adds no behavior of its own: rendering delegates verbatim to
/// `E`, and the wrapped value can always be viewed or reclaimed. Equality,
/// ordering and hashing, where `E` supports them, are delegated to `E`.
#[derive(Debug, Copy, Clone, Eq, PartialEq, Hash, Default)]
pub struct Compat<E> {
    /// The wrapped error. A `Compat` always holds exactly one fully-formed
    /// value; it is never partially constructed.
    pub error: E,
}

/// What wrapping an error produces: a `Compat` holding that value and
/// nothing else.
pub open spec fn spec_new<E>(error: E) -> Compat<E> {
    Compat { error }
}

/// What unwrapping a wrapper — or peeking at it — yields: the wrapped value.
pub open spec fn spec_inner<E>(c: Compat<E>) -> E {
    c.error
}

impl<E> Compat<E> {
    /// Wraps an error. Always succeeds; `E` need satisfy no capability at
    /// construction time.
    pub fn new(error: E) -> (r: Compat<E>)
        ensures
            r == spec_new(error),
    {
        Compat { error }
    }

    /// Unwraps this into the inner error. Always succeeds: the wrapper
    /// always holds a valid value.
    pub fn into_inner(self) -> (r: E)
        ensures
            r == spec_inner(self),
    {
        self.error
    }

    /// Gets a reference to the inner error, without consuming the wrapper.
    pub fn get_ref(&self) -> (r: &E)
        ensures
            *r == spec_inner(*self),
    {
        &self.error
    }
}

impl<E: Render> Render for Compat<E> {
    /// Rendering delegates verbatim to the wrapped error: the wrapper adds
    /// no prefix, suffix, or reformatting.
    open spec fn render_spec(&self) -> Seq<char> {
        self.error.render_spec()
    }

    fn render(&self) -> (r: String) {
        self.error.render()
    }
}

impl<E: Render + DebugRender> MinimalError for Compat<E> {
    /// The description is a fixed placeholder, whatever the wrapped error
    /// holds: detail stays reachable through `render` and `get_ref`.
    open spec fn description_spec(&self) -> Seq<char> {
        placeholder_description()
    }

    fn description(&self) -> (r: String) {
        String::from_str("An error has occurred.")
    }
}

impl Fail for Compat<RichError> {
    /// The wrapper reports exactly the snapshot that the wrapped rich error
    /// captured.
    open spec fn backtrace_spec(&self) -> Option<Backtrace> {
        Some(self.error.backtrace)
    }

    fn backtrace(&self) -> (r: Option<&Backtrace>) {
        Some(self.error.backtrace())
    }
}

/// Converts a rich error into an owned, boxed value of the wrapper, the
/// on-ramp for callers that must hand out the minimal abstraction. The
/// conversion is total — every rich error converts — and the boxed value
/// renders exactly as the original error does.
pub fn into_boxed_minimal(error: RichError) -> (r: Box<Compat<RichError>>)
    ensures
        *r == spec_new(error),
        r.render_spec() == error.render_spec(),
{
    Box::new(Compat::new(error))
}

/// Round trip: wrapping an error and then unwrapping the wrapper yields the
/// original value, for every error type and every value of it.
pub proof fn lemma_round_trip<E>(e: E)
    ensures
        spec_inner(spec_new(e)) == e,
{
}

/// Rendering transparency: a wrapper built from an error renders exactly as
/// the error itself does.
pub proof fn lemma_render_transparency<E: Render>(e: E)
    ensures
        spec_new(e).render_spec() == e.render_spec(),
{
}

/// Peek non-consumption: every peek at a wrapper yields a view equal to the
/// value that unwrapping it yields, so any number of peeks before the unwrap
/// all agree with it.
pub proof fn lemma_peek_agrees_with_unwrap<E>(c: Compat<E>, peeked: E, unwrapped: E)
    requires
        peeked == spec_inner(c),
        unwrapped == spec_inner(c),
    ensures
        peeked == unwrapped,
{
}

/// Description stability: the description accessor returns the same fixed
/// text for every wrapper, whatever error it holds and of whatever type.
pub proof fn lemma_description_stable<E1: Render + DebugRender, E2: Render + DebugRender>(
    c1: Compat<E1>,
    c2: Compat<E2>,
)
    ensures
        c1.description_spec() == placeholder_description(),
        c1.description_spec() == c2.description_spec(),
{
}

/// Backtrace delegation: the snapshot the wrapper reports on a rich error is
/// the very snapshot the wrapped error captured.
pub proof fn lemma_backtrace_delegation(c: Compat<RichError>)
    ensures
        c.backtrace_spec() == Some(spec_inner(c).backtrace),
{
}

} // verus!
