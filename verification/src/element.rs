//! Walking and searching the chain that starts at a link.
//!
//! The chain is the link itself, then its cause, then the cause of that,
//! down to the error that has none. Its first element has its kind typed;
//! the others have their types forgotten. A search starts at the link
//! itself and stops at the first element it looks for.
//!
//! Each search comes in two forms. One names the type by its identity, and
//! says exactly what is found. The other names the type itself, looks up
//! its identity and does the first; no contract can say which identity
//! belongs to a type, so of this form it is only known that it is the first
//! for some identity.

use crate::cause::By;
use crate::cause::Cause;
use crate::cause::CauseView;
use crate::cause::IntoCause;
use crate::chain::first_match;
use crate::chain::lemma_first_match_map;
use crate::chain::lemma_first_match_step;
use crate::down::is_kind;
use crate::down::ErrorDown;
use crate::erased::same_type;
use crate::erased::type_id_of;
use crate::erased::Render;
use crate::erased::Style;
use crate::error::Error;
use crate::error::ErrorView;
use core::any::TypeId;
use core::fmt::Debug;
use core::fmt::Display;
use vstd::prelude::*;

verus! {

/// The mathematical content of an [`Element`].
pub enum ElementView<T> {
    /// The link that a chain starts at.
    Head(ErrorView<T>),
    /// An error below it.
    Cause(CauseView),
}

/// Sees a cause as an element of the chain of a link.
pub open spec fn as_element<T>() -> spec_fn(CauseView) -> ElementView<T> {
    |cause: CauseView| ElementView::Cause(cause)
}

/// The chain of causes that starts at `source`, empty if there is none.
pub open spec fn below<T>(source: Option<Box<CauseView>>) -> Seq<ElementView<T>> {
    match source {
        Some(source) => source.chain().map_values(as_element()),
        None => Seq::empty(),
    }
}

impl<T> ErrorView<T> {
    /// The chain that starts at this link: the link itself, then its cause,
    /// then the cause of that, down to the error that has none.
    pub open spec fn chain(self) -> Seq<ElementView<T>> {
        seq![ElementView::Head(self)] + below(self.source)
    }

    /// The chain of a link is the link followed by the chain of its cause:
    /// it has one element more, each element but the last has the next one
    /// as its cause, and the last has none.
    pub proof fn lemma_chain(self)
        ensures
            self.chain().len() == 1 + match self.source {
                Some(source) => source.chain().len(),
                None => 0,
            },
            self.chain()[0] == ElementView::Head(self),
            self.chain().last().source() is None,
            forall|at: int|
                0 <= at < self.chain().len() - 1 ==> (#[trigger] self.chain()[at]).source()
                    == Some(self.chain()[at + 1]),
    {
        if let Some(source) = self.source {
            source.lemma_chain();
        }
    }

    /// Whether this link is the outcome of attachments of kinds with the
    /// identities `kinds`, the last attached first, to an error that is no
    /// link and has no cause.
    pub open spec fn attached(self, kinds: Seq<TypeId>) -> bool {
        &&& kinds.len() > 0
        &&& self.kind_id == kinds[0]
        &&& self.source matches Some(source)
        &&& source.attached(kinds.drop_first())
    }

    /// Walking the outcome of `n` attachments yields `n + 1` elements and
    /// no more: the `n` links, outermost first, each with the kind it was
    /// attached with, then the error that all began with, which has no
    /// cause.
    pub proof fn lemma_attached_chain(self, kinds: Seq<TypeId>)
        requires
            self.attached(kinds),
        ensures
            self.chain().len() == kinds.len() + 1,
            self.chain()[0] == ElementView::Head(self),
            forall|at: int|
                0 <= at < kinds.len() ==> (#[trigger] self.chain()[at]).kind_id() == Some(
                    kinds[at],
                ),
            self.chain().last() matches ElementView::Cause(root) && root.node is Foreign
                && root.source is None,
            forall|at: int|
                0 <= at < kinds.len() ==> (#[trigger] self.chain()[at]).source() == Some(
                    self.chain()[at + 1],
                ),
    {
        let source = *self.source->Some_0;
        source.lemma_attached_chain(kinds.drop_first());
        self.lemma_chain();
    }

    /// A search that the link itself answers finds the link itself, whatever
    /// lies below it.
    pub proof fn lemma_head_is_nearest(self, wanted: spec_fn(ElementView<T>) -> bool)
        requires
            wanted(ElementView::Head(self)),
        ensures
            first_match(self.chain(), wanted) == Some(ElementView::Head(self)),
    {
        lemma_first_match_step(self.chain(), wanted);
    }
}

impl<T> ElementView<T> {
    /// Identity of the element's own type.
    pub open spec fn type_id(self) -> TypeId {
        match self {
            ElementView::Head(head) => head.type_id,
            ElementView::Cause(cause) => cause.node.type_id(),
        }
    }

    /// Identity of the type of the element's kind, if the element is a link.
    pub open spec fn kind_id(self) -> Option<TypeId> {
        match self {
            ElementView::Head(head) => Some(head.kind_id),
            ElementView::Cause(cause) => cause.node.kind_id(),
        }
    }

    /// Identity of the type of what the element holds: the kind of a link,
    /// or else the error itself.
    pub open spec fn inner_id(self) -> TypeId {
        match self {
            ElementView::Head(head) => head.kind_id,
            ElementView::Cause(cause) => cause.node.inner().type_id,
        }
    }

    /// The cause of the element, if it has one.
    pub open spec fn source(self) -> Option<ElementView<T>> {
        match self {
            ElementView::Head(head) => match head.source {
                Some(source) => Some(ElementView::Cause(*source)),
                None => None,
            },
            ElementView::Cause(cause) => match cause.source {
                Some(source) => Some(ElementView::Cause(*source)),
                None => None,
            },
        }
    }

    /// The chain that starts at the element.
    pub open spec fn chain(self) -> Seq<ElementView<T>> {
        match self {
            ElementView::Head(head) => head.chain(),
            ElementView::Cause(cause) => below(Some(Box::new(cause))),
        }
    }

    /// A chain is never empty and starts with the element it is the chain
    /// of; what follows is the chain of that element's cause; the last
    /// element has no cause.
    pub proof fn lemma_chain(self)
        ensures
            self.chain().len() >= 1,
            self.chain()[0] == self,
            self.chain().drop_first() == match self.source() {
                Some(source) => source.chain(),
                None => Seq::empty(),
            },
            self.chain().last().source() is None,
    {
        match self {
            ElementView::Head(head) => {
                if let Some(source) = head.source {
                    source.lemma_chain();
                }
            },
            ElementView::Cause(cause) => {
                match cause.source {
                    Some(source) => {
                        source.lemma_chain();
                        assert(cause.chain().map_values(as_element::<T>()).drop_first()
                            == source.chain().map_values(as_element::<T>()));
                    },
                    None => {
                        assert(cause.chain().map_values(as_element::<T>()).drop_first()
                            == Seq::<ElementView<T>>::empty());
                    },
                }
            },
        }
    }

    /// The elements whose own type `id` identifies.
    pub open spec fn of_type(id: TypeId) -> spec_fn(ElementView<T>) -> bool {
        |element: ElementView<T>| element.type_id() == id
    }

    /// The links whose kind has the type that `id` identifies.
    pub open spec fn of_kind(id: TypeId) -> spec_fn(ElementView<T>) -> bool {
        |element: ElementView<T>| element.kind_id() == Some(id)
    }

    /// The links whose kind has the type that `id` identifies, and the
    /// other errors that have it themselves.
    pub open spec fn of_kind_or_type(id: TypeId) -> spec_fn(ElementView<T>) -> bool {
        |element: ElementView<T>| element.inner_id() == id
    }
}

impl<T: Render> ElementView<T> {
    /// Whether `text` is a rendering of the element in `style`.
    pub open spec fn renders(self, style: Style, text: Seq<char>) -> bool {
        match self {
            ElementView::Head(head) => head.renders(style, text),
            ElementView::Cause(cause) => text == cause.text(style),
        }
    }
}

/// The elements that a search for `id` looks for.
pub(crate) open spec fn wanted_element<T>(by: By, id: TypeId) -> spec_fn(ElementView<T>) -> bool {
    |element: ElementView<T>|
        match by {
            By::Type => element.type_id() == id,
            By::Kind => element.kind_id() == Some(id),
            By::KindOrType => element.inner_id() == id,
        }
}

/// One element of the chain that starts at an [`Error`]: the link itself,
/// which has its kind typed, or one of the errors below it.
pub enum Element<'a, T> {
    /// The link that the chain starts at.
    Head(&'a Error<T>),
    /// An error below it.
    Cause(&'a Cause),
}

impl<'a, T> View for Element<'a, T> {
    type V = ElementView<T>;

    open spec fn view(&self) -> ElementView<T> {
        match self {
            Element::Head(head) => ElementView::Head(head@),
            Element::Cause(cause) => ElementView::Cause(cause@),
        }
    }
}

impl<'a, T> Clone for Element<'a, T> {
    fn clone(&self) -> (copy: Self)
        ensures
            copy == *self,
    {
        match self {
            Element::Head(head) => Element::Head(head),
            Element::Cause(cause) => Element::Cause(cause),
        }
    }
}

impl<'a, T> Copy for Element<'a, T> {}

/// The content of an optional element.
pub open spec fn element_view<T>(element: Option<Element<'_, T>>) -> Option<ElementView<T>> {
    match element {
        Some(element) => Some(element@),
        None => None,
    }
}

impl<'a, T: Render + 'static> Element<'a, T> {
    /// The cause of the element, if it has one.
    pub fn source(&self) -> (source: Option<Element<'a, T>>)
        ensures
            element_view(source) == self@.source(),
    {
        let below = match self {
            Element::Head(head) => head.source(),
            Element::Cause(cause) => cause.source(),
        };
        match below {
            Some(cause) => Some(Element::Cause(cause)),
            None => None,
        }
    }

    /// Identity of the element's own type.
    pub fn type_id(&self) -> (id: TypeId)
        ensures
            id == self@.type_id(),
    {
        match self {
            Element::Head(head) => head.type_id(),
            Element::Cause(cause) => cause.type_id(),
        }
    }

    /// Whether the element is a link whose kind has exactly the type that
    /// `id` identifies.
    pub fn is_chain_by_id(&self, id: TypeId) -> (is: bool)
        ensures
            is == is_kind(self@.kind_id(), id),
    {
        match self {
            Element::Head(head) => head.is_chain_by_id(id),
            Element::Cause(cause) => cause.is_chain_by_id(id),
        }
    }

    /// Whether the element is a link whose kind has exactly the type `K`.
    pub fn is_chain<K: 'static>(&self) -> (is: bool)
        ensures
            exists|id: TypeId| is == #[trigger] is_kind(self@.kind_id(), id),
    {
        self.is_chain_by_id(type_id_of::<K>())
    }

    /// Renders the element in `style`.
    pub fn render(&self, style: Style) -> (text: String)
        ensures
            self@.renders(style, text@),
    {
        match self {
            Element::Head(head) => head.render(style),
            Element::Cause(cause) => cause.render(style),
        }
    }
}

/// A walk over a chain, from a link down to the error that has no cause.
pub struct ErrorIter<'a, T> {
    current: Option<Element<'a, T>>,
}

impl<'a, T: Render + 'static> ErrorIter<'a, T> {
    /// The elements still to come, next one first.
    pub closed spec fn remaining(&self) -> Seq<ElementView<T>> {
        match self.current {
            Some(element) => element@.chain(),
            None => Seq::empty(),
        }
    }

    /// The next element of the chain, until the chain is used up.
    pub fn next(&mut self) -> (item: Option<Element<'a, T>>)
        ensures
            element_view(item) == if old(self).remaining().len() > 0 {
                Some(old(self).remaining()[0])
            } else {
                None
            },
            final(self).remaining() == if old(self).remaining().len() > 0 {
                old(self).remaining().drop_first()
            } else {
                old(self).remaining()
            },
    {
        match self.current.take() {
            Some(element) => {
                self.current = element.source();
                Some(element)
            },
            None => None,
        }
    }
}

impl<T: Render + 'static> Error<T> {
    /// Whether this link is what a search for `id` looks for.
    fn answers(&self, by: By, id: TypeId) -> (found: bool)
        ensures
            found == wanted_element::<T>(by, id)(ElementView::Head(self@)),
    {
        match by {
            By::Type => same_type(self.type_id(), id),
            By::Kind => same_type(self.kind_id(), id),
            By::KindOrType => same_type(self.kind_id(), id),
        }
    }

    /// The first element of the chain that a search for `id` looks for.
    fn find(&self, by: By, id: TypeId) -> (found: Option<Element<'_, T>>)
        ensures
            element_view(found) == first_match(self@.chain(), wanted_element(by, id)),
    {
        proof {
            lemma_first_match_step(self@.chain(), wanted_element(by, id));
            assert(self@.chain().drop_first() == below::<T>(self@.source));
            if let Some(source) = self@.source {
                lemma_first_match_map(
                    source.chain(),
                    as_element::<T>(),
                    by.wanted(id),
                    wanted_element::<T>(by, id),
                );
            }
        }
        if self.answers(by, id) {
            Some(Element::Head(self))
        } else {
            match self.source() {
                Some(source) => match source.find(by, id) {
                    Some(found) => Some(Element::Cause(found)),
                    None => None,
                },
                None => None,
            }
        }
    }

    /// Walks the chain that starts at this link, the link itself first.
    /// Each call starts a walk of its own.
    pub fn iter(&self) -> (iter: ErrorIter<'_, T>)
        ensures
            iter.remaining() == self@.chain(),
    {
        ErrorIter { current: Some(Element::Head(self)) }
    }

    /// The last element of the chain that starts at this link: the error
    /// that has no cause. There always is one; it is this link itself if
    /// nothing caused it.
    pub fn root_cause(&self) -> (root: Option<Element<'_, T>>)
        ensures
            element_view(root) == Some(self@.chain().last()),
            root matches Some(root) && root@.source() is None,
    {
        match self.source() {
            Some(source) => Some(Element::Cause(source.root_cause())),
            None => Some(Element::Head(self)),
        }
    }

    /// The first element of the chain, this link included, whose own type
    /// `id` identifies.
    pub fn find_cause_by_id(&self, id: TypeId) -> (found: Option<Element<'_, T>>)
        ensures
            element_view(found) == first_match(self@.chain(), ElementView::of_type(id)),
    {
        assert(wanted_element::<T>(By::Type, id) == ElementView::<T>::of_type(id));
        self.find(By::Type, id)
    }

    /// The first link of the chain, this one included, whose kind has the
    /// type that `id` identifies.
    pub fn find_chain_cause_by_id(&self, id: TypeId) -> (found: Option<Element<'_, T>>)
        ensures
            element_view(found) == first_match(self@.chain(), ElementView::of_kind(id)),
    {
        assert(wanted_element::<T>(By::Kind, id) == ElementView::<T>::of_kind(id));
        self.find(By::Kind, id)
    }

    /// The first element of the chain, this link included, that is a link
    /// whose kind has the type that `id` identifies, or is no link and has
    /// that type itself.
    pub fn find_kind_or_cause_by_id(&self, id: TypeId) -> (found: Option<Element<'_, T>>)
        ensures
            element_view(found) == first_match(self@.chain(), ElementView::of_kind_or_type(id)),
    {
        assert(wanted_element::<T>(By::KindOrType, id) == ElementView::<T>::of_kind_or_type(id));
        self.find(By::KindOrType, id)
    }

    /// The first element of the chain, this link included, that has the
    /// type `U` itself.
    pub fn find_cause<U: 'static>(&self) -> (found: Option<Element<'_, T>>)
        ensures
            exists|id: TypeId|
                element_view(found) == first_match(
                    self@.chain(),
                    #[trigger] ElementView::<T>::of_type(id),
                ),
    {
        self.find_cause_by_id(type_id_of::<U>())
    }

    /// The first link of the chain, this one included, whose kind has the
    /// type `U`.
    pub fn find_chain_cause<U: 'static>(&self) -> (found: Option<Element<'_, T>>)
        ensures
            exists|id: TypeId|
                element_view(found) == first_match(
                    self@.chain(),
                    #[trigger] ElementView::<T>::of_kind(id),
                ),
    {
        self.find_chain_cause_by_id(type_id_of::<U>())
    }

    /// The first element of the chain, this link included, that is a link
    /// whose kind has the type `U`, or is no link and has the type `U`
    /// itself.
    pub fn find_kind_or_cause<U: 'static>(&self) -> (found: Option<Element<'_, T>>)
        ensures
            exists|id: TypeId|
                element_view(found) == first_match(
                    self@.chain(),
                    #[trigger] ElementView::<T>::of_kind_or_type(id),
                ),
    {
        self.find_kind_or_cause_by_id(type_id_of::<U>())
    }
}

/// Attaching a kind to a link makes the chain one element longer: the new
/// link comes first, and below it every element of the old chain is still
/// there, in its place and with its identities.
pub proof fn lemma_attach_extends_chain<T, U: Render + Send + Sync + 'static>(
    link: ErrorView<T>,
    failure: Error<U>,
)
    requires
        link.source matches Some(cause) && failure.erases_to(*cause),
    ensures
        link.chain().len() == failure@.chain().len() + 1,
        forall|at: int|
            0 <= at < failure@.chain().len() ==> {
                &&& (#[trigger] link.chain()[at + 1]).type_id() == failure@.chain()[at].type_id()
                &&& link.chain()[at + 1].kind_id() == failure@.chain()[at].kind_id()
                &&& link.chain()[at + 1].inner_id() == failure@.chain()[at].inner_id()
            },
{
}

/// Attaching a kind to the outcome of `n` attachments gives the outcome of
/// `n + 1` attachments, the new kind first.
pub proof fn lemma_attach_once_more<T, U: Render + Send + Sync + 'static>(
    link: ErrorView<T>,
    failure: Error<U>,
    kinds: Seq<TypeId>,
)
    requires
        failure@.attached(kinds),
        link.source matches Some(cause) && failure.erases_to(*cause),
    ensures
        link.attached(seq![link.kind_id] + kinds),
{
    assert((seq![link.kind_id] + kinds).drop_first() == kinds);
}

/// Attaching a kind to an error that is no link is the first attachment.
pub proof fn lemma_attach_first<T, E: Display + Debug + Send + Sync + 'static>(
    link: ErrorView<T>,
    failure: E,
)
    requires
        link.source matches Some(cause) && failure.erases_to(*cause),
    ensures
        link.attached(seq![link.kind_id]),
{
}

/// Attaching a kind to an error that is no link gives a chain of two: the
/// new link and, as its root, the error.
pub proof fn lemma_attach_starts_chain<T, E: Display + Debug + Send + Sync + 'static>(
    link: ErrorView<T>,
    failure: E,
)
    requires
        link.source matches Some(cause) && failure.erases_to(*cause),
    ensures
        link.chain().len() == 2,
        link.chain()[1] == ElementView::<T>::Cause(*link.source->Some_0),
        link.chain()[1].kind_id() is None,
{
}

} // verus!
