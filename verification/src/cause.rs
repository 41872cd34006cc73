//! The causes below a link, their types forgotten.
//!
//! A [`Cause`] is either a link that was wrapped by another link, or some
//! other error that a chain started from. Either way it holds the identity
//! and the texts of the value, taken when the value was erased, beside the
//! value itself, and owns the cause below it.
//!
//! A cause can be rendered, asked for its own cause and searched like the
//! link at the head of a chain; a search starts at the cause itself.

use crate::chain::first_match;
use crate::chain::lemma_first_match_step;
use crate::down::ErrorDown;
use crate::erased::same_type;
use crate::erased::type_id_of;
use crate::erased::Erased;
use crate::erased::ErasedView;
use crate::erased::Render;
use crate::erased::Style;
use crate::text::kind_style;
use crate::text::link_text;
use crate::text::pick_kind_style;
use crate::text::render_link;
use crate::text::text_of;
use core::any::TypeId;
use core::fmt::Debug;
use core::fmt::Display;
use vstd::prelude::*;

verus! {

/// What an element of a chain is, apart from the cause below it.
pub enum NodeView {
    /// A link: a kind attached to a failure.
    Link {
        /// Identity of the link's own type.
        type_id: TypeId,
        /// Name of the type of the kind, if it was given.
        kind_name: Option<Seq<char>>,
        /// The kind, erased.
        kind: ErasedView,
        /// Whether the kind is bare text, which is shown as it is even for
        /// diagnosis.
        plain_text: bool,
        /// Where the link was made, if that is known.
        occurrence: Option<Seq<char>>,
    },
    /// Any other error.
    Foreign {
        /// The error, erased.
        value: ErasedView,
    },
}

impl NodeView {
    /// Identity of the element's own type.
    pub open spec fn type_id(self) -> TypeId {
        match self {
            NodeView::Link { type_id, .. } => type_id,
            NodeView::Foreign { value } => value.type_id,
        }
    }

    /// Identity of the type of the element's kind, if the element is a link.
    pub open spec fn kind_id(self) -> Option<TypeId> {
        match self {
            NodeView::Link { kind, .. } => Some(kind.type_id),
            NodeView::Foreign { .. } => None,
        }
    }

    /// What the element holds: the kind of a link, or else the error itself.
    pub open spec fn inner(self) -> ErasedView {
        match self {
            NodeView::Link { kind, .. } => kind,
            NodeView::Foreign { value } => value,
        }
    }

    /// The element with `inner` in the place of what it holds.
    pub open spec fn with_inner(self, inner: ErasedView) -> NodeView {
        match self {
            NodeView::Link { type_id, kind_name, plain_text, occurrence, .. } => NodeView::Link {
                type_id,
                kind_name,
                kind: inner,
                plain_text,
                occurrence,
            },
            NodeView::Foreign { .. } => NodeView::Foreign { value: inner },
        }
    }
}

/// The mathematical content of a [`Cause`]: an element and, below it, the
/// rest of the chain.
pub struct CauseView {
    /// The element itself.
    pub node: NodeView,
    /// The cause of this element, if it has one.
    pub source: Option<Box<CauseView>>,
}

/// The content of an optional boxed cause.
pub open spec fn view_of(cause: Option<Box<Cause>>) -> Option<Box<CauseView>> {
    match cause {
        Some(cause) => Some(Box::new(cause@)),
        None => None,
    }
}

impl CauseView {
    /// The cause of this element, if it has one.
    pub open spec fn source(self) -> Option<CauseView> {
        match self.source {
            Some(source) => Some(*source),
            None => None,
        }
    }

    /// The chain that starts here: this element, then its cause, then the
    /// cause of that, down to the element that has none.
    pub open spec fn chain(self) -> Seq<CauseView>
        decreases self,
    {
        match self.source {
            Some(source) => seq![self] + source.chain(),
            None => seq![self],
        }
    }

    /// Whether this is what attachments of kinds with the identities
    /// `kinds`, the last attached first, make of an error that is no link
    /// and has no cause: one link for each, the innermost with that error as
    /// its cause.
    pub open spec fn attached(self, kinds: Seq<TypeId>) -> bool
        decreases kinds.len(),
    {
        if kinds.len() == 0 {
            self.node is Foreign && self.source is None
        } else {
            &&& self.node.kind_id() == Some(kinds[0])
            &&& self.source matches Some(source)
            &&& source.attached(kinds.drop_first())
        }
    }

    /// What `n` attachments make of an error is a chain of `n + 1`
    /// elements: the `n` links, outermost first, each with the kind it was
    /// attached with, and then the error, which has no cause.
    pub proof fn lemma_attached_chain(self, kinds: Seq<TypeId>)
        requires
            self.attached(kinds),
        ensures
            self.chain().len() == kinds.len() + 1,
            forall|at: int|
                0 <= at < kinds.len() ==> (#[trigger] self.chain()[at]).node.kind_id() == Some(
                    kinds[at],
                ),
            self.chain().last().node is Foreign,
            self.chain().last().source is None,
        decreases kinds.len(),
    {
        if kinds.len() > 0 {
            let source = *self.source->Some_0;
            source.lemma_attached_chain(kinds.drop_first());
        }
    }

    /// The text of the cause of this element in `style`, if it has a cause.
    pub open spec fn source_text(self, style: Style) -> Option<Seq<char>>
        decreases self, 0int,
    {
        match self.source {
            Some(source) => Some(source.text(style)),
            None => None,
        }
    }

    /// The text of this element in `style`.
    ///
    /// A link is rendered from its place, its kind and the text of its
    /// cause, so that the verbose and the diagnostic texts show the whole
    /// chain, outermost first. Any other error has its own text, which was
    /// taken when it was erased.
    pub open spec fn text(self, style: Style) -> Seq<char>
        decreases self, 1int,
    {
        match self.node {
            NodeView::Link { kind_name, kind, plain_text, occurrence, .. } => link_text(
                style,
                kind_name,
                occurrence,
                kind.text(kind_style(style, plain_text)),
                self.source_text(style),
            ),
            NodeView::Foreign { value } => value.text(style),
        }
    }
}

/// What an erased element is, apart from the cause below it.
pub(crate) enum Node {
    Link {
        type_id: TypeId,
        kind_name: Option<&'static str>,
        kind: Erased,
        plain_text: bool,
        occurrence: Option<String>,
    },
    Foreign { value: Erased },
}

impl View for Node {
    type V = NodeView;

    closed spec fn view(&self) -> NodeView {
        match self {
            Node::Link { type_id, kind_name, kind, plain_text, occurrence } => NodeView::Link {
                type_id: *type_id,
                kind_name: text_of(*kind_name),
                kind: kind@,
                plain_text: *plain_text,
                occurrence: match occurrence {
                    Some(occurrence) => Some(occurrence@),
                    None => None,
                },
            },
            Node::Foreign { value } => NodeView::Foreign { value: value@ },
        }
    }
}

/// An error in a chain, its type forgotten, together with the causes below
/// it.
pub struct Cause {
    node: Node,
    source: Option<Box<Cause>>,
}

impl Cause {
    spec fn model(self) -> CauseView
        decreases self,
    {
        CauseView {
            node: self.node@,
            source: match self.source {
                Some(source) => Some(Box::new(source.model())),
                None => None,
            },
        }
    }
}

impl View for Cause {
    type V = CauseView;

    closed spec fn view(&self) -> CauseView {
        self.model()
    }
}

impl Cause {
    /// An error that is no link, with the cause it reports, if any.
    pub fn foreign(value: Erased, source: Option<Box<Cause>>) -> (cause: Cause)
        ensures
            cause@ == (CauseView {
                node: NodeView::Foreign { value: value@ },
                source: view_of(source),
            }),
    {
        Cause { node: Node::Foreign { value }, source }
    }

    /// Erases `error` as an error that is no link and has no cause, and
    /// keeps it.
    ///
    /// Nothing but its type and its texts is looked at. An error that has a
    /// cause of its own is put together with [`Cause::foreign`].
    pub fn of<E: Render + Send + Sync + 'static>(error: E) -> (cause: Cause)
        ensures
            cause@.node is Foreign,
            cause@.source is None,
            forall|style: Style| #[trigger] error.renders(style, cause@.node.inner().text(style)),
    {
        Cause { node: Node::Foreign { value: Erased::of(error) }, source: None }
    }

    /// A link whose kind has been erased.
    pub(crate) fn link(
        type_id: TypeId,
        kind_name: Option<&'static str>,
        kind: Erased,
        plain_text: bool,
        occurrence: Option<String>,
        source: Option<Box<Cause>>,
    ) -> (cause: Cause)
        ensures
            cause@ == (CauseView {
                node: NodeView::Link {
                    type_id,
                    kind_name: text_of(kind_name),
                    kind: kind@,
                    plain_text,
                    occurrence: match occurrence {
                        Some(occurrence) => Some(occurrence@),
                        None => None,
                    },
                },
                source: view_of(source),
            }),
    {
        Cause { node: Node::Link { type_id, kind_name, kind, plain_text, occurrence }, source }
    }

    /// The cause of this error, if it has one.
    pub fn source(&self) -> (source: Option<&Cause>)
        ensures
            match source {
                Some(source) => self@.source() == Some(source@),
                None => self@.source() is None,
            },
    {
        match &self.source {
            Some(source) => Some(&**source),
            None => None,
        }
    }

    /// Whether this error is a link.
    pub fn is_link(&self) -> (link: bool)
        ensures
            link == (self@.node is Link),
    {
        match &self.node {
            Node::Link { .. } => true,
            Node::Foreign { .. } => false,
        }
    }

    /// Identity of the type this error had.
    pub fn type_id(&self) -> (id: TypeId)
        ensures
            id == self@.node.type_id(),
    {
        match &self.node {
            Node::Link { type_id, .. } => *type_id,
            Node::Foreign { value } => value.type_id(),
        }
    }

    /// What this error holds: the kind of a link, or else the error itself.
    pub fn inner(&self) -> (inner: &Erased)
        ensures
            inner@ == self@.node.inner(),
    {
        match &self.node {
            Node::Link { kind, .. } => kind,
            Node::Foreign { value } => value,
        }
    }

    /// Where this link was made, if this is a link and the place is known.
    pub fn occurrence(&self) -> (occurrence: Option<&str>)
        ensures
            match self@.node {
                NodeView::Link { occurrence: place, .. } => text_of(occurrence) == place,
                NodeView::Foreign { .. } => occurrence is None,
            },
    {
        match &self.node {
            Node::Link { occurrence: Some(occurrence), .. } => Some(occurrence.as_str()),
            _ => None,
        }
    }

    /// Name of the type of the kind, if this is a link that was given one.
    pub fn kind_name(&self) -> (name: Option<&'static str>)
        ensures
            match self@.node {
                NodeView::Link { kind_name, .. } => text_of(name) == kind_name,
                NodeView::Foreign { .. } => name is None,
            },
    {
        match &self.node {
            Node::Link { kind_name, .. } => *kind_name,
            Node::Foreign { .. } => None,
        }
    }

    /// Renders this error in `style`.
    pub fn render(&self, style: Style) -> (text: String)
        ensures
            text@ == self@.text(style),
        decreases self,
    {
        match &self.node {
            Node::Link { kind_name, kind, plain_text, occurrence, .. } => {
                let below = match (style, &self.source) {
                    (Style::Display, _) => None,
                    (_, Some(source)) => Some(source.render(style)),
                    (_, None) => None,
                };
                render_link(
                    style,
                    *kind_name,
                    match occurrence {
                        Some(occurrence) => Some(occurrence.as_str()),
                        None => None,
                    },
                    kind.text(pick_kind_style(style, *plain_text)),
                    match &below {
                        Some(below) => Some(below.as_str()),
                        None => None,
                    },
                )
            },
            Node::Foreign { value } => value.text(style).to_owned(),
        }
    }

    /// The terse human-readable text (`{}`): for a link that of its kind,
    /// whatever lies below.
    pub fn display(&self) -> (text: String)
        ensures
            text@ == self@.text(Style::Display),
            text@ == self@.node.inner().display,
    {
        self.render(Style::Display)
    }

    /// The verbose human-readable text (`{:#}`): for a link its kind and
    /// the whole chain below it.
    pub fn display_alternate(&self) -> (text: String)
        ensures
            text@ == self@.text(Style::DisplayAlternate),
    {
        self.render(Style::DisplayAlternate)
    }

    /// The diagnostic text (`{:?}`): for a link its place, its kind and the
    /// whole chain below it.
    pub fn debug(&self) -> (text: String)
        ensures
            text@ == self@.text(Style::Debug),
    {
        self.render(Style::Debug)
    }

    /// The structured diagnostic text (`{:#?}`): for a link a record of its
    /// place, its kind and its cause.
    pub fn debug_alternate(&self) -> (text: String)
        ensures
            text@ == self@.text(Style::DebugAlternate),
    {
        self.render(Style::DebugAlternate)
    }
}

/// How a search tells whether an element is the one it looks for.
#[derive(Clone, Copy)]
pub(crate) enum By {
    /// By the element's own type.
    Type,
    /// By the type of the element's kind.
    Kind,
    /// By the type of a link's kind, and by the own type of any other error.
    KindOrType,
}

impl By {
    /// Whether `node` is what a search for `id` looks for.
    pub(crate) open spec fn finds(self, id: TypeId, node: NodeView) -> bool {
        match self {
            By::Type => node.type_id() == id,
            By::Kind => node.kind_id() == Some(id),
            By::KindOrType => node.inner().type_id == id,
        }
    }

    /// The elements that a search for `id` looks for.
    pub(crate) open spec fn wanted(self, id: TypeId) -> spec_fn(CauseView) -> bool {
        |cause: CauseView| self.finds(id, cause.node)
    }
}

/// The content of an optional borrowed cause.
pub open spec fn found_view(found: Option<&Cause>) -> Option<CauseView> {
    match found {
        Some(cause) => Some(cause@),
        None => None,
    }
}

impl CauseView {
    /// The elements whose own type `id` identifies.
    pub open spec fn of_type(id: TypeId) -> spec_fn(CauseView) -> bool {
        |cause: CauseView| cause.node.type_id() == id
    }

    /// The links whose kind has the type that `id` identifies.
    pub open spec fn of_kind(id: TypeId) -> spec_fn(CauseView) -> bool {
        |cause: CauseView| cause.node.kind_id() == Some(id)
    }

    /// The links whose kind has the type that `id` identifies, and the
    /// other errors that have it themselves.
    pub open spec fn of_kind_or_type(id: TypeId) -> spec_fn(CauseView) -> bool {
        |cause: CauseView| cause.node.inner().type_id == id
    }

    /// A chain is never empty and starts with the element it is the chain
    /// of; each element but the last has the next one as its cause, and the
    /// last has none.
    pub proof fn lemma_chain(self)
        ensures
            self.chain().len() >= 1,
            self.chain()[0] == self,
            self.chain().last().source is None,
            forall|at: int|
                0 <= at < self.chain().len() - 1 ==> (#[trigger] self.chain()[at]).source()
                    == Some(self.chain()[at + 1]),
            forall|at: int|
                0 <= at < self.chain().len() ==> (#[trigger] self.chain()[at]).chain()
                    == self.chain().skip(at),
        decreases self,
    {
        if let Some(source) = self.source {
            source.lemma_chain();
        }
    }
}

impl Cause {
    /// Whether this element is what a search for `id` looks for.
    fn answers(&self, by: By, id: TypeId) -> (found: bool)
        ensures
            found == by.finds(id, self@.node),
    {
        match by {
            By::Type => same_type(self.type_id(), id),
            By::Kind => self.is_link() && self.inner().is(id),
            By::KindOrType => self.inner().is(id),
        }
    }

    /// The first element of the chain that a search for `id` looks for.
    pub(crate) fn find(&self, by: By, id: TypeId) -> (found: Option<&Cause>)
        ensures
            found_view(found) == first_match(self@.chain(), by.wanted(id)),
    {
        let mut current: &Cause = self;
        loop
            invariant
                first_match(self@.chain(), by.wanted(id)) == first_match(
                    current@.chain(),
                    by.wanted(id),
                ),
            decreases current@.chain().len(),
        {
            proof {
                current@.lemma_chain();
                lemma_first_match_step(current@.chain(), by.wanted(id));
            }
            if current.answers(by, id) {
                return Some(current);
            }
            match current.source() {
                Some(source) => {
                    current = source;
                },
                None => {
                    return None;
                },
            }
        }
    }

    /// The last element of the chain that starts here: the one that has no
    /// cause.
    pub fn root_cause(&self) -> (root: &Cause)
        ensures
            root@ == self@.chain().last(),
            root@.source is None,
    {
        let mut current: &Cause = self;
        loop
            invariant
                self@.chain().last() == current@.chain().last(),
            decreases current@.chain().len(),
        {
            match current.source() {
                Some(source) => {
                    current = source;
                },
                None => {
                    return current;
                },
            }
        }
    }

    /// The first element of the chain, this one included, whose own type
    /// `id` identifies.
    pub fn find_cause_by_id(&self, id: TypeId) -> (found: Option<&Cause>)
        ensures
            found_view(found) == first_match(self@.chain(), CauseView::of_type(id)),
    {
        assert(By::Type.wanted(id) == CauseView::of_type(id));
        self.find(By::Type, id)
    }

    /// The first link of the chain, this one included, whose kind has the
    /// type that `id` identifies.
    pub fn find_chain_cause_by_id(&self, id: TypeId) -> (found: Option<&Cause>)
        ensures
            found_view(found) == first_match(self@.chain(), CauseView::of_kind(id)),
    {
        assert(By::Kind.wanted(id) == CauseView::of_kind(id));
        self.find(By::Kind, id)
    }

    /// The first element of the chain, this one included, that is a link
    /// whose kind has the type that `id` identifies, or is no link and has
    /// that type itself.
    pub fn find_kind_or_cause_by_id(&self, id: TypeId) -> (found: Option<&Cause>)
        ensures
            found_view(found) == first_match(self@.chain(), CauseView::of_kind_or_type(id)),
    {
        assert(By::KindOrType.wanted(id) == CauseView::of_kind_or_type(id));
        self.find(By::KindOrType, id)
    }

    /// The first element of the chain, this one included, that has the type
    /// `U` itself.
    pub fn find_cause<U: 'static>(&self) -> (found: Option<&Cause>)
        ensures
            exists|id: TypeId|
                found_view(found) == first_match(self@.chain(), #[trigger] CauseView::of_type(id)),
    {
        self.find_cause_by_id(type_id_of::<U>())
    }

    /// The first link of the chain, this one included, whose kind has the
    /// type `U`.
    pub fn find_chain_cause<U: 'static>(&self) -> (found: Option<&Cause>)
        ensures
            exists|id: TypeId|
                found_view(found) == first_match(self@.chain(), #[trigger] CauseView::of_kind(id)),
    {
        self.find_chain_cause_by_id(type_id_of::<U>())
    }

    /// The first element of the chain, this one included, that is a link
    /// whose kind has the type `U`, or is no link and has the type `U`
    /// itself.
    pub fn find_kind_or_cause<U: 'static>(&self) -> (found: Option<&Cause>)
        ensures
            exists|id: TypeId|
                found_view(found) == first_match(
                    self@.chain(),
                    #[trigger] CauseView::of_kind_or_type(id),
                ),
    {
        self.find_kind_or_cause_by_id(type_id_of::<U>())
    }
}

/// A failure that a link can be attached to: it can be turned into a
/// [`Cause`].
///
/// A link becomes an erased link that keeps its kind, a cause stays what it
/// is, and any other value with `Display` and `Debug` that can cross
/// threads becomes an error that is no link and has no cause, and is kept.
pub trait IntoCause: Sized {
    /// Whether `cause` is this value with its type forgotten.
    spec fn erases_to(self, cause: CauseView) -> bool;

    /// Forgets the type of the value.
    fn into_cause(self) -> (cause: Cause)
        ensures
            self.erases_to(cause@),
    ;
}

impl IntoCause for Cause {
    open spec fn erases_to(self, cause: CauseView) -> bool {
        cause == self@
    }

    fn into_cause(self) -> (cause: Cause) {
        self
    }
}

impl IntoCause for Box<Cause> {
    open spec fn erases_to(self, cause: CauseView) -> bool {
        cause == self@
    }

    fn into_cause(self) -> (cause: Cause) {
        *self
    }
}

impl<E: Display + Debug + Send + Sync + 'static> IntoCause for E {
    open spec fn erases_to(self, cause: CauseView) -> bool {
        &&& cause.node is Foreign
        &&& cause.source is None
        &&& forall|style: Style| #[trigger] self.renders(style, cause.node.inner().text(style))
    }

    fn into_cause(self) -> (cause: Cause) {
        Cause::of(self)
    }
}

impl ErrorDown for Cause {
    type Inner = Erased;

    open spec fn chain_kind(&self) -> Option<TypeId> {
        self@.node.kind_id()
    }

    open spec fn holds(&self, inner: &Erased) -> bool {
        inner@ == self@.node.inner()
    }

    open spec fn holds_instead(&self, before: &Self, inner: &Erased) -> bool {
        self@ == (CauseView { node: before@.node.with_inner(inner@), source: before@.source })
    }

    fn is_chain_by_id(&self, id: TypeId) -> (is: bool) {
        self.is_link() && self.inner().is(id)
    }

    fn downcast_chain_ref_by_id(&self, id: TypeId) -> (link: Option<&Self>) {
        if self.is_chain_by_id(id) {
            Some(self)
        } else {
            None
        }
    }

    fn downcast_chain_mut_by_id(&mut self, id: TypeId) -> (link: Option<&mut Self>) {
        if self.is_chain_by_id(id) {
            Some(self)
        } else {
            None
        }
    }

    fn downcast_inner_ref_by_id(&self, id: TypeId) -> (inner: Option<&Erased>) {
        match &self.node {
            Node::Link { kind, .. } => if kind.is(id) {
                Some(kind)
            } else {
                None
            },
            Node::Foreign { .. } => None,
        }
    }

    fn downcast_inner_mut_by_id(&mut self, id: TypeId) -> (inner: Option<&mut Erased>) {
        match &mut self.node {
            Node::Link { kind, .. } => if kind.is(id) {
                Some(kind)
            } else {
                None
            },
            Node::Foreign { .. } => None,
        }
    }
}

impl Render for Cause {
    open spec fn renders(&self, style: Style, text: Seq<char>) -> bool {
        text == self@.text(style)
    }

    fn render(&self, style: Style) -> (text: String) {
        Cause::render(self, style)
    }
}

} // verus!
