//! Errors that carry their cause.
//!
//! A failing operation is annotated with a typed *kind* while the failure
//! that caused it is kept. The result is a chain of causes, outermost
//! first, that can be rendered, walked and searched by type.
//!
//! * [`Error`] is a link: a kind, the place the link was made at, and the
//!   cause. The link at the head of a chain has its kind typed.
//! * [`Cause`] is what lies below: an error whose type has been forgotten.
//!   It keeps the identity of the type, the texts the value rendered as
//!   when it was erased and the value itself, and owns the cause below it.
//! * [`Context`] attaches a kind to the failure of a `Result`, and
//!   [`Error::from_kind`] makes a link of a kind alone. The place is named
//!   by the caller.
//! * [`ErrorDown`] asks an error whether it is a link of some kind, and the
//!   searches of [`Error`] and [`Cause`] look for the nearest element of
//!   some type. A type can be named by its `TypeId` or as a type argument.
//! * A link is rendered by [`Error::render`] in one of four styles, a cause
//!   by [`Cause::render`]. What the texts are is laid down in [`text`].

pub mod cause;
pub mod chain;
pub mod context;
pub mod down;
pub mod element;
pub mod erased;
pub mod error;
pub mod text;

pub use cause::Cause;
pub use cause::IntoCause;
pub use context::Context;
pub use down::ErrorDown;
pub use element::Element;
pub use element::ErrorIter;
pub use erased::AnnotatedError;
pub use erased::Erased;
pub use erased::Identities;
pub use erased::Render;
pub use erased::Style;
pub use error::Error;
pub use error::Result;
