//! Asking an error whether it is a link of some kind, and getting at the
//! link or at its kind if it is.

use crate::erased::type_id_of;
use core::any::TypeId;
use vstd::prelude::*;

verus! {

/// Whether `kind`, the identity of the type of a kind if there is a kind,
/// is the identity `id`.
pub open spec fn is_kind(kind: Option<TypeId>, id: TypeId) -> bool {
    kind == Some(id)
}

/// Type-checked access to a link and to its kind.
///
/// It is offered alike by a link whose kind is typed and by an error whose
/// type has been forgotten. Each question comes in two forms. One names the
/// type by its identity, and says exactly what is answered. The other names
/// the type itself, looks up its identity and asks the first; no contract
/// can say which identity belongs to a type, so of this form it is only
/// known that it is the first for some identity.
pub trait ErrorDown: Sized {
    /// The kind of a link, as the error holds it.
    type Inner;

    /// Identity of the type of the kind, if the error is a link.
    spec fn chain_kind(&self) -> Option<TypeId>;

    /// Whether `inner` is the kind of the error, a link.
    spec fn holds(&self, inner: &Self::Inner) -> bool;

    /// Whether the error is `before` with `inner` in the place of the kind
    /// of that one, and nothing else changed.
    spec fn holds_instead(&self, before: &Self, inner: &Self::Inner) -> bool;

    /// Whether the error is a link whose kind has exactly the type that
    /// `id` identifies.
    fn is_chain_by_id(&self, id: TypeId) -> (is: bool)
        ensures
            is == is_kind(self.chain_kind(), id),
    ;

    /// The error as a link, if it is one whose kind has exactly the type
    /// that `id` identifies.
    fn downcast_chain_ref_by_id(&self, id: TypeId) -> (link: Option<&Self>)
        ensures
            link == if is_kind(self.chain_kind(), id) {
                Some(self)
            } else {
                None
            },
    ;

    /// The error as a link, for changing it, if it is one whose kind has
    /// exactly the type that `id` identifies.
    fn downcast_chain_mut_by_id(&mut self, id: TypeId) -> (link: Option<&mut Self>)
        ensures
            match link {
                Some(link) => {
                    &&& is_kind(old(self).chain_kind(), id)
                    &&& *link == *old(self)
                    &&& *final(self) == *final(link)
                },
                None => {
                    &&& !is_kind(old(self).chain_kind(), id)
                    &&& *final(self) == *old(self)
                },
            },
    ;

    /// The kind of the error, if the error is a link whose kind has exactly
    /// the type that `id` identifies. An error that is no link has no kind.
    fn downcast_inner_ref_by_id(&self, id: TypeId) -> (inner: Option<&Self::Inner>)
        ensures
            match inner {
                Some(inner) => is_kind(self.chain_kind(), id) && self.holds(inner),
                None => !is_kind(self.chain_kind(), id),
            },
    ;

    /// The kind of the error, for changing it, if the error is a link whose
    /// kind has exactly the type that `id` identifies.
    fn downcast_inner_mut_by_id(&mut self, id: TypeId) -> (inner: Option<&mut Self::Inner>)
        ensures
            match inner {
                Some(inner) => {
                    &&& is_kind(old(self).chain_kind(), id)
                    &&& old(self).holds(inner)
                    &&& final(self).holds_instead(old(self), final(inner))
                },
                None => {
                    &&& !is_kind(old(self).chain_kind(), id)
                    &&& *final(self) == *old(self)
                },
            },
    ;

    /// Whether the error is a link whose kind has exactly the type `T`.
    fn is_chain<T: 'static>(&self) -> (is: bool)
        ensures
            exists|id: TypeId| is == #[trigger] is_kind(self.chain_kind(), id),
    {
        self.is_chain_by_id(type_id_of::<T>())
    }

    /// The error as a link, if it is one whose kind has exactly the type
    /// `T`.
    fn downcast_chain_ref<T: 'static>(&self) -> (link: Option<&Self>)
        ensures
            exists|id: TypeId|
                link == if #[trigger] is_kind(self.chain_kind(), id) {
                    Some(self)
                } else {
                    None
                },
    {
        self.downcast_chain_ref_by_id(type_id_of::<T>())
    }

    /// The error as a link, for changing it, if it is one whose kind has
    /// exactly the type `T`.
    fn downcast_chain_mut<T: 'static>(&mut self) -> (link: Option<&mut Self>)
        ensures
            exists|id: TypeId|
                match link {
                    Some(link) => {
                        &&& #[trigger] is_kind(old(self).chain_kind(), id)
                        &&& *link == *old(self)
                        &&& *final(self) == *final(link)
                    },
                    None => {
                        &&& !is_kind(old(self).chain_kind(), id)
                        &&& *final(self) == *old(self)
                    },
                },
    {
        self.downcast_chain_mut_by_id(type_id_of::<T>())
    }

    /// The kind of the error, if the error is a link whose kind has exactly
    /// the type `T`.
    fn downcast_inner_ref<T: 'static>(&self) -> (inner: Option<&Self::Inner>)
        ensures
            exists|id: TypeId|
                match inner {
                    Some(inner) => #[trigger] is_kind(self.chain_kind(), id) && self.holds(inner),
                    None => !is_kind(self.chain_kind(), id),
                },
    {
        self.downcast_inner_ref_by_id(type_id_of::<T>())
    }

    /// The kind of the error, for changing it, if the error is a link whose
    /// kind has exactly the type `T`.
    fn downcast_inner_mut<T: 'static>(&mut self) -> (inner: Option<&mut Self::Inner>)
        ensures
            exists|id: TypeId|
                match inner {
                    Some(inner) => {
                        &&& #[trigger] is_kind(old(self).chain_kind(), id)
                        &&& old(self).holds(inner)
                        &&& final(self).holds_instead(old(self), final(inner))
                    },
                    None => {
                        &&& !is_kind(old(self).chain_kind(), id)
                        &&& *final(self) == *old(self)
                    },
                },
    {
        self.downcast_inner_mut_by_id(type_id_of::<T>())
    }
}

} // verus!
