//! Values whose static type has been forgotten. What is known of one is
//! the identity of its type and the four texts it rendered as; the value
//! itself is kept beside them, to be had back by its type.

use core::any::Any;
use core::any::TypeId;
use core::fmt::Debug;
use core::fmt::Display;
use vstd::prelude::*;

verus! {

/// `core::any::TypeId`, carried through as an opaque value.
///
/// Nothing is assumed of what is inside one; two of them are told apart
/// only by [`same_type`].
#[verifier::external_type_specification]
#[verifier::external_body]
pub struct ExTypeId(core::any::TypeId);

/// Calls `core::any::TypeId::of::<T>()`.
///
/// Nothing is claimed of the identifier that comes back: which identifier
/// belongs to which type cannot be said in a contract.
#[verifier::external_body]
pub(crate) fn type_id_of<T: 'static + ?Sized>() -> (id: TypeId) {
    TypeId::of::<T>()
}

/// Calls `==` of `core::any::TypeId`.
///
/// Claims that the comparison answers `true` exactly when both arguments are
/// the same identifier.
#[verifier::external_body]
pub(crate) fn same_type(a: TypeId, b: TypeId) -> (same: bool)
    ensures
        same == (a == b),
{
    a == b
}

/// Whether a kind is bare text, given the identity of its type and those of
/// the two types of text, the owned string and the string slice.
pub fn is_plain_text(kind: TypeId, string: TypeId, slice: TypeId) -> (plain: bool)
    ensures
        plain == (kind == string || kind == slice),
{
    same_type(kind, string) || same_type(kind, slice)
}

/// The identities that a link of some kind goes by, and those of the two
/// types of text that it compares the identity of its kind with.
#[derive(Clone, Copy)]
pub struct Identities {
    /// Identity of the type of the link itself.
    pub link: TypeId,
    /// Identity of the type of the kind.
    pub kind: TypeId,
    /// Identity of the owned string.
    pub string: TypeId,
    /// Identity of the string slice.
    pub slice: TypeId,
}

impl Identities {
    /// Looks up the identities for a link of type `L` with a kind of type
    /// `K`.
    ///
    /// No contract can say which identity belongs to a type, so nothing is
    /// known of what comes back.
    pub fn of<L: 'static, K: 'static>() -> (identities: Identities) {
        Identities {
            link: type_id_of::<L>(),
            kind: type_id_of::<K>(),
            string: type_id_of::<String>(),
            slice: type_id_of::<&'static str>(),
        }
    }

    /// Whether the kind is bare text: an owned string or a string slice.
    pub open spec fn plain_text(self) -> bool {
        self.kind == self.string || self.kind == self.slice
    }
}

/// Formats `value` with `{:#}`, that is `core::fmt::Display::fmt` with the
/// alternate flag set.
///
/// Nothing is claimed of the text: it is whatever the implementation of
/// `Display` for `T` writes.
#[verifier::external_body]
pub(crate) fn format_display_alternate<T: Display>(value: &T) -> (text: String) {
    format!("{:#}", value)
}

/// Formats `value` with `{:?}`, that is `core::fmt::Debug::fmt`.
///
/// Nothing is claimed of the text: it is whatever the implementation of
/// `Debug` for `T` writes.
#[verifier::external_body]
pub(crate) fn format_debug<T: Debug>(value: &T) -> (text: String) {
    format!("{:?}", value)
}

/// Formats `value` with `{:#?}`, that is `core::fmt::Debug::fmt` with the
/// alternate flag set.
///
/// Nothing is claimed of the text: it is whatever the implementation of
/// `Debug` for `T` writes.
#[verifier::external_body]
pub(crate) fn format_debug_alternate<T: Debug>(value: &T) -> (text: String) {
    format!("{:#?}", value)
}

/// The four ways a value can be rendered as text.
#[derive(Clone, Copy, Debug)]
pub enum Style {
    /// Human-readable, terse (`{}`).
    Display,
    /// Human-readable, verbose (`{:#}`).
    DisplayAlternate,
    /// Diagnostic (`{:?}`).
    Debug,
    /// Diagnostic, structured (`{:#?}`).
    DebugAlternate,
}

/// A value that can be rendered in each [`Style`].
///
/// Every type with `Display` and `Debug` is one; so is [`AnnotatedError`].
pub trait Render {
    /// Whether `text` is a rendering of this value in `style`.
    spec fn renders(&self, style: Style, text: Seq<char>) -> bool;

    /// Renders the value in `style`.
    fn render(&self, style: Style) -> (text: String)
        ensures
            self.renders(style, text@),
    ;
}

impl<T: Display + Debug> Render for T {
    /// The terse human-readable text is the one `to_string` gives; of the
    /// other three nothing is known.
    open spec fn renders(&self, style: Style, text: Seq<char>) -> bool {
        style is Display ==> exists|s: String|
            s@ == text && #[trigger] vstd::string::to_string_from_display_ensures::<T>(self, s)
    }

    fn render(&self, style: Style) -> (text: String) {
        match style {
            Style::Display => self.to_string(),
            Style::DisplayAlternate => format_display_alternate(self),
            Style::Debug => format_debug(self),
            Style::DebugAlternate => format_debug_alternate(self),
        }
    }
}

/// The kind of a link that carries nothing but the place it was made at.
pub struct AnnotatedError(pub(crate) ());

impl AnnotatedError {
    /// The text an [`AnnotatedError`] renders as, in every style.
    pub open spec fn placeholder() -> Seq<char> {
        "(passed error)"@
    }
}

impl Render for AnnotatedError {
    open spec fn renders(&self, style: Style, text: Seq<char>) -> bool {
        text == AnnotatedError::placeholder()
    }

    fn render(&self, style: Style) -> (text: String) {
        "(passed error)".to_owned()
    }
}

/// A value of any type, kept whole behind `Box<dyn core::any::Any + Send +
/// Sync>` so that it can be had back by its type.
///
/// Nothing is known of what is inside one: the box is hidden from every
/// proof, and only [`keep`] and [`kept_as`] touch it.
#[verifier::external_body]
pub struct Kept {
    value: Box<dyn Any + Send + Sync>,
}

/// Calls `Box::new` and takes the box as `Box<dyn Any + Send + Sync>`.
///
/// Nothing is claimed of what comes back.
#[verifier::external_body]
pub(crate) fn keep<T: Send + Sync + 'static>(value: T) -> (kept: Kept) {
    Kept { value: Box::new(value) }
}

/// Calls `downcast_ref::<T>()` of `dyn core::any::Any`, which hands out the
/// value if it has the type `T`.
///
/// Nothing is claimed of the answer: which values have which type cannot
/// be said in a contract.
#[verifier::external_body]
pub(crate) fn kept_as<'a, T: 'static>(kept: &'a Kept) -> (value: Option<&'a T>) {
    kept.value.downcast_ref::<T>()
}

/// The mathematical content of an [`Erased`] value.
pub struct ErasedView {
    /// Identity of the type the value had.
    pub type_id: TypeId,
    /// What the value rendered as with `{}`.
    pub display: Seq<char>,
    /// What the value rendered as with `{:#}`.
    pub display_alternate: Seq<char>,
    /// What the value rendered as with `{:?}`.
    pub debug: Seq<char>,
    /// What the value rendered as with `{:#?}`.
    pub debug_alternate: Seq<char>,
    /// The value itself, if it was kept.
    pub value: Option<Kept>,
}

impl ErasedView {
    /// The text for `style`.
    pub open spec fn text(self, style: Style) -> Seq<char> {
        match style {
            Style::Display => self.display,
            Style::DisplayAlternate => self.display_alternate,
            Style::Debug => self.debug,
            Style::DebugAlternate => self.debug_alternate,
        }
    }
}

/// What is left of a value once its type is forgotten: the identity of the
/// type, the value's text in each [`Style`], taken when it was erased, and,
/// where it was handed over whole, the value itself.
pub struct Erased {
    type_id: TypeId,
    display: String,
    display_alternate: String,
    debug: String,
    debug_alternate: String,
    value: Option<Kept>,
}

impl View for Erased {
    type V = ErasedView;

    closed spec fn view(&self) -> ErasedView {
        ErasedView {
            type_id: self.type_id,
            display: self.display@,
            display_alternate: self.display_alternate@,
            debug: self.debug@,
            debug_alternate: self.debug_alternate@,
            value: self.value,
        }
    }
}

impl Erased {
    /// Puts together an erased value from its identity and its texts. The
    /// value itself is not at hand and is not kept.
    pub fn new(
        type_id: TypeId,
        display: String,
        display_alternate: String,
        debug: String,
        debug_alternate: String,
    ) -> (erased: Erased)
        ensures
            erased@ == (ErasedView {
                type_id,
                display: display@,
                display_alternate: display_alternate@,
                debug: debug@,
                debug_alternate: debug_alternate@,
                value: None,
            }),
    {
        Erased { type_id, display, display_alternate, debug, debug_alternate, value: None }
    }

    /// Erases `value` under the identity `type_id`: renders it in each
    /// style and keeps it.
    pub fn keeping<T: Render + Send + Sync + 'static>(type_id: TypeId, value: T) -> (erased:
        Erased)
        ensures
            erased@.type_id == type_id,
            erased@.value is Some,
            forall|style: Style| #[trigger] value.renders(style, erased@.text(style)),
    {
        let display = value.render(Style::Display);
        let display_alternate = value.render(Style::DisplayAlternate);
        let debug = value.render(Style::Debug);
        let debug_alternate = value.render(Style::DebugAlternate);
        Erased {
            type_id,
            display,
            display_alternate,
            debug,
            debug_alternate,
            value: Some(keep(value)),
        }
    }

    /// Erases `value`: renders it in each style, notes the identity of its
    /// type and keeps it.
    pub fn of<T: Render + Send + Sync + 'static>(value: T) -> (erased: Erased)
        ensures
            erased@.value is Some,
            forall|style: Style| #[trigger] value.renders(style, erased@.text(style)),
    {
        Erased::keeping(type_id_of::<T>(), value)
    }

    /// The value itself, if it was kept and has the type `T`.
    pub fn downcast_ref<T: 'static>(&self) -> (value: Option<&T>)
        ensures
            value is Some ==> self@.value is Some,
    {
        match &self.value {
            Some(kept) => kept_as::<T>(kept),
            None => None,
        }
    }

    /// Identity of the type the value had.
    pub fn type_id(&self) -> (id: TypeId)
        ensures
            id == self@.type_id,
    {
        self.type_id
    }

    /// Whether the value had the type that `id` identifies.
    pub fn is(&self, id: TypeId) -> (same: bool)
        ensures
            same == (self@.type_id == id),
    {
        same_type(self.type_id, id)
    }

    /// The value's text in `style`.
    pub fn text(&self, style: Style) -> (text: &str)
        ensures
            text@ == self@.text(style),
    {
        match style {
            Style::Display => self.display.as_str(),
            Style::DisplayAlternate => self.display_alternate.as_str(),
            Style::Debug => self.debug.as_str(),
            Style::DebugAlternate => self.debug_alternate.as_str(),
        }
    }
}

} // verus!
