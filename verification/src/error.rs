//! The link: a kind, typed, attached to the failure that caused it.

use crate::cause::Cause;
use crate::cause::CauseView;
use crate::cause::IntoCause;
use crate::cause::NodeView;
use crate::cause::view_of;
use crate::down::ErrorDown;
use crate::erased::is_plain_text;
use crate::erased::same_type;
use crate::erased::Identities;
use crate::erased::Erased;
use crate::erased::ErasedView;
use crate::erased::Render;
use crate::erased::Style;
use crate::text::kind_style;
use crate::text::link_text;
use crate::text::pick_kind_style;
use crate::text::render_link;
use crate::text::text_of;
use core::any::TypeId;
use vstd::prelude::*;

verus! {

/// Chains a kind of type `T` with the error that caused it.
///
/// The kind keeps its type; the cause, and everything below it, is held
/// with its type forgotten.
pub struct Error<T> {
    occurrence: Option<String>,
    kind: T,
    error_cause: Option<Box<Cause>>,
    type_id: TypeId,
    kind_id: TypeId,
    kind_name: Option<&'static str>,
    plain_text: bool,
}

/// The outcome of an operation whose failure is a link of kind `E`.
pub type Result<O, E> = core::result::Result<O, Error<E>>;

/// The mathematical content of an [`Error`].
pub struct ErrorView<T> {
    /// The kind.
    pub kind: T,
    /// Identity of the link's own type.
    pub type_id: TypeId,
    /// Identity of the type of the kind.
    pub kind_id: TypeId,
    /// Name of the type of the kind, if it was given.
    pub kind_name: Option<Seq<char>>,
    /// Whether the kind is bare text, which is shown as it is even for
    /// diagnosis.
    pub plain_text: bool,
    /// Where the link was made, if that is known.
    pub occurrence: Option<Seq<char>>,
    /// The cause, if there is one.
    pub source: Option<Box<CauseView>>,
}

impl<T> View for Error<T> {
    type V = ErrorView<T>;

    closed spec fn view(&self) -> ErrorView<T> {
        ErrorView {
            kind: self.kind,
            type_id: self.type_id,
            kind_id: self.kind_id,
            kind_name: text_of(self.kind_name),
            plain_text: self.plain_text,
            occurrence: match self.occurrence {
                Some(occurrence) => Some(occurrence@),
                None => None,
            },
            source: view_of(self.error_cause),
        }
    }
}

impl<T> ErrorView<T> {
    /// The text of the cause in `style`, if there is a cause.
    pub open spec fn source_text(self, style: Style) -> Option<Seq<char>> {
        match self.source {
            Some(source) => Some(source.text(style)),
            None => None,
        }
    }

    /// What this link is once `kind` stands for its kind.
    pub open spec fn erased(self, kind: ErasedView) -> CauseView {
        CauseView {
            node: NodeView::Link {
                type_id: self.type_id,
                kind_name: self.kind_name,
                kind,
                plain_text: self.plain_text,
                occurrence: self.occurrence,
            },
            source: self.source,
        }
    }
}

impl<T: Render> ErrorView<T> {
    /// Whether `text` is a rendering of this link in `style`: the text of
    /// the link for some rendering of its kind.
    pub open spec fn renders(self, style: Style, text: Seq<char>) -> bool {
        exists|kind: Seq<char>| #[trigger]
            self.kind.renders(kind_style(style, self.plain_text), kind) && text == link_text(
                style,
                self.kind_name,
                self.occurrence,
                kind,
                self.source_text(style),
            )
    }
}

impl<T: Render + 'static> Error<T> {
    /// Chains `kind` with the error that caused it, if any, and the place
    /// the link is made at, if known. The link goes by the identities given.
    pub fn with_identities(
        kind: T,
        error_cause: Option<Box<Cause>>,
        occurrence: Option<String>,
        identities: Identities,
    ) -> (error: Self)
        ensures
            error@ == (ErrorView {
                kind,
                type_id: identities.link,
                kind_id: identities.kind,
                kind_name: None,
                plain_text: identities.plain_text(),
                occurrence: match occurrence {
                    Some(occurrence) => Some(occurrence@),
                    None => None,
                },
                source: view_of(error_cause),
            }),
    {
        Error {
            occurrence,
            kind,
            error_cause,
            type_id: identities.link,
            kind_id: identities.kind,
            kind_name: None,
            plain_text: is_plain_text(identities.kind, identities.string, identities.slice),
        }
    }

    /// Chains `kind` with the error that caused it, if any, and the place
    /// the link is made at, if known.
    ///
    /// The link goes by the identities of its own type and of the type of
    /// its kind, looked up here.
    pub fn new(
        kind: T,
        error_cause: Option<Box<Cause>>,
        occurrence: Option<String>,
    ) -> (error: Self)
        ensures
            error@.kind == kind,
            error@.occurrence == match occurrence {
                Some(occurrence) => Some(occurrence@),
                None => None,
            },
            error@.source == view_of(error_cause),
            error@.kind_name is None,
            exists|identities: Identities|
                {
                    &&& error@.type_id == identities.link
                    &&& error@.kind_id == identities.kind
                    &&& error@.plain_text == #[trigger] identities.plain_text()
                },
    {
        Error::with_identities(kind, error_cause, occurrence, Identities::of::<Error<T>, T>())
    }

    /// The link with `name` as the name of the type of its kind. The name
    /// heads the record that is the structured diagnostic text of the link;
    /// a link that was given none is headed `Error`.
    pub fn named(self, name: &'static str) -> (error: Self)
        ensures
            error@ == (ErrorView { kind_name: Some(name@), ..self@ }),
    {
        let Error { occurrence, kind, error_cause, type_id, kind_id, kind_name: _, plain_text } =
            self;
        Error { occurrence, kind, error_cause, type_id, kind_id, kind_name: Some(name), plain_text }
    }

    /// A link made of a kind alone, at `location`: it has no cause.
    pub fn from_kind(kind: T, location: &str) -> (error: Self)
        ensures
            error@.kind == kind,
            error@.occurrence == Some(location@),
            error@.source is None,
    {
        Error::new(kind, None, Some(location.to_owned()))
    }

    /// The kind.
    pub fn kind(&self) -> (kind: &T)
        ensures
            *kind == self@.kind,
    {
        &self.kind
    }

    /// The error that caused this one, if there is one.
    pub fn source(&self) -> (source: Option<&Cause>)
        ensures
            match source {
                Some(source) => self@.source == Some(Box::new(source@)),
                None => self@.source is None,
            },
    {
        match &self.error_cause {
            Some(source) => Some(&**source),
            None => None,
        }
    }

    /// Where the link was made, if that is known.
    pub fn occurrence(&self) -> (occurrence: Option<&str>)
        ensures
            text_of(occurrence) == self@.occurrence,
    {
        match &self.occurrence {
            Some(occurrence) => Some(occurrence.as_str()),
            None => None,
        }
    }

    /// Identity of the link's own type.
    pub fn type_id(&self) -> (id: TypeId)
        ensures
            id == self@.type_id,
    {
        self.type_id
    }

    /// Identity of the type of the kind.
    pub fn kind_id(&self) -> (id: TypeId)
        ensures
            id == self@.kind_id,
    {
        self.kind_id
    }

    /// Name of the type of the kind, if the link was given one.
    pub fn kind_name(&self) -> (name: Option<&'static str>)
        ensures
            text_of(name) == self@.kind_name,
    {
        self.kind_name
    }

    /// Renders the link in `style`.
    ///
    /// The kind is rendered now; the causes have the texts that were taken
    /// when they were erased.
    pub fn render(&self, style: Style) -> (text: String)
        ensures
            self@.renders(style, text@),
    {
        let kind = self.kind.render(pick_kind_style(style, self.plain_text));
        let below = match (style, &self.error_cause) {
            (Style::Display, _) => None,
            (_, Some(source)) => Some(source.render(style)),
            (_, None) => None,
        };
        let text = render_link(
            style,
            self.kind_name,
            match &self.occurrence {
                Some(occurrence) => Some(occurrence.as_str()),
                None => None,
            },
            kind.as_str(),
            match &below {
                Some(below) => Some(below.as_str()),
                None => None,
            },
        );
        assert(self@.kind.renders(kind_style(style, self@.plain_text), kind@));
        text
    }

    /// The terse human-readable text (`{}`): that of the kind, whatever the
    /// cause is.
    pub fn display(&self) -> (text: String)
        ensures
            self@.kind.renders(Style::Display, text@),
    {
        self.kind.render(Style::Display)
    }

    /// The verbose human-readable text (`{:#}`): the kind and the whole
    /// chain below it.
    pub fn display_alternate(&self) -> (text: String)
        ensures
            self@.renders(Style::DisplayAlternate, text@),
    {
        self.render(Style::DisplayAlternate)
    }

    /// The diagnostic text (`{:?}`): the place, the kind and the whole
    /// chain below it, outermost first.
    pub fn debug(&self) -> (text: String)
        ensures
            self@.renders(Style::Debug, text@),
    {
        self.render(Style::Debug)
    }

    /// The structured diagnostic text (`{:#?}`): a record of the place, the
    /// kind and the cause.
    pub fn debug_alternate(&self) -> (text: String)
        ensures
            self@.renders(Style::DebugAlternate, text@),
    {
        self.render(Style::DebugAlternate)
    }
}

impl<T: Render + Send + Sync + 'static> IntoCause for Error<T> {
    /// The cause is this link with its kind erased: the identities, the
    /// place and the cause below are kept, and the kind has become its
    /// texts, with the kind itself kept beside them.
    open spec fn erases_to(self, cause: CauseView) -> bool {
        &&& cause == self@.erased(cause.node.inner())
        &&& cause.node.inner().type_id == self@.kind_id
        &&& forall|style: Style| #[trigger]
            self@.kind.renders(style, cause.node.inner().text(style))
    }

    fn into_cause(self) -> (cause: Cause) {
        let Error { occurrence, kind, error_cause, type_id, kind_id, kind_name, plain_text } = self;
        Cause::link(
            type_id,
            kind_name,
            Erased::keeping(kind_id, kind),
            plain_text,
            occurrence,
            error_cause,
        )
    }
}

/// A link renders the same before and after its type is forgotten: the
/// texts of the erased link are renderings of the link.
pub proof fn lemma_erasure_keeps_texts<T: Render + Send + Sync + 'static>(link: Error<T>, cause: CauseView)
    requires
        link.erases_to(cause),
    ensures
        forall|style: Style| #[trigger] link@.renders(style, cause.text(style)),
{
    assert forall|style: Style| #[trigger] link@.renders(style, cause.text(style)) by {
        let picked = kind_style(style, link@.plain_text);
        let kind = cause.node.inner().text(picked);
        assert(link@.kind.renders(picked, kind));
    }
}

/// A link can itself be the kind of another link. It then renders as it
/// does on its own; a search of the outer chain does not look into it.
impl<T: Render + 'static> Render for Error<T> {
    open spec fn renders(&self, style: Style, text: Seq<char>) -> bool {
        self@.renders(style, text)
    }

    fn render(&self, style: Style) -> (text: String) {
        Error::render(self, style)
    }
}

impl<T> core::ops::Deref for Error<T> {
    type Target = T;

    /// The kind.
    fn deref(&self) -> (kind: &T)
        ensures
            *kind == self@.kind,
    {
        &self.kind
    }
}

impl<U: Render + 'static> ErrorDown for Error<U> {
    type Inner = U;

    open spec fn chain_kind(&self) -> Option<TypeId> {
        Some(self@.kind_id)
    }

    open spec fn holds(&self, inner: &U) -> bool {
        *inner == self@.kind
    }

    open spec fn holds_instead(&self, before: &Self, inner: &U) -> bool {
        self@ == (ErrorView { kind: *inner, ..before@ })
    }

    fn is_chain_by_id(&self, id: TypeId) -> (is: bool) {
        same_type(self.kind_id, id)
    }

    fn downcast_chain_ref_by_id(&self, id: TypeId) -> (link: Option<&Self>) {
        if self.is_chain_by_id(id) {
            Some(self)
        } else {
            None
        }
    }

    fn downcast_chain_mut_by_id(&mut self, id: TypeId) -> (link: Option<&mut Self>) {
        if self.is_chain_by_id(id) {
            Some(self)
        } else {
            None
        }
    }

    fn downcast_inner_ref_by_id(&self, id: TypeId) -> (inner: Option<&U>) {
        if self.is_chain_by_id(id) {
            Some(&self.kind)
        } else {
            None
        }
    }

    fn downcast_inner_mut_by_id(&mut self, id: TypeId) -> (inner: Option<&mut U>) {
        if self.is_chain_by_id(id) {
            Some(&mut self.kind)
        } else {
            None
        }
    }
}

} // verus!
