//! An error-interoperability shim: a generic wrapper, `Compat`, that lets a
//! richly-typed error be consumed through a minimal "standard error"
//! capability set without losing the ability to recover the original value.

pub mod capability;
pub mod compat;
pub mod rich;

pub use capability::DebugRender;
pub use capability::Fail;
pub use capability::MinimalError;
pub use capability::Render;
pub use compat::into_boxed_minimal;
pub use compat::Compat;
pub use rich::Backtrace;
pub use rich::RichError;
