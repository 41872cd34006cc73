//! Attaching a kind to the failure of an operation.

use crate::cause::IntoCause;
use crate::erased::AnnotatedError;
use crate::erased::Render;
use crate::error::Error;
use vstd::prelude::*;

verus! {

/// Turns the failure of an operation into a link that has the failure as
/// its cause. A success is handed on as it is.
///
/// The place to record in the link is named by the caller.
pub trait Context<O, E: IntoCause>: Sized {
    /// How the operation ended.
    spec fn outcome(self) -> Result<O, E>;

    /// Attaches `kind` to a failure, made at `location`.
    fn context<T: Render + 'static>(self, kind: T, location: &str) -> (result: Result<O, Error<T>>)
        ensures
            match self.outcome() {
                Ok(value) => result == Ok::<O, Error<T>>(value),
                Err(failure) => {
                    &&& result matches Err(link)
                    &&& link@.kind == kind
                    &&& link@.occurrence == Some(location@)
                    &&& link@.kind_name is None
                    &&& link@.source matches Some(cause)
                    &&& failure.erases_to(*cause)
                },
            },
    ;

    /// Attaches nothing but `location` to a failure.
    fn annotate(self, location: &str) -> (result: Result<O, Error<AnnotatedError>>)
        ensures
            match self.outcome() {
                Ok(value) => result == Ok::<O, Error<AnnotatedError>>(value),
                Err(failure) => {
                    &&& result matches Err(link)
                    &&& link@.occurrence == Some(location@)
                    &&& link@.kind_name is None
                    &&& link@.source matches Some(cause)
                    &&& failure.erases_to(*cause)
                },
            },
    ;

    /// Attaches to a failure, made at `location`, the kind that `op` makes
    /// of it.
    fn map_context<T: Render + 'static, F: FnOnce(&E) -> T>(
        self,
        op: F,
        location: &str,
    ) -> (result: Result<O, Error<T>>)
        requires
            self.outcome() matches Err(failure) ==> op.requires((&failure,)),
        ensures
            match self.outcome() {
                Ok(value) => result == Ok::<O, Error<T>>(value),
                Err(failure) => {
                    &&& result matches Err(link)
                    &&& op.ensures((&failure,), link@.kind)
                    &&& link@.occurrence == Some(location@)
                    &&& link@.kind_name is None
                    &&& link@.source matches Some(cause)
                    &&& failure.erases_to(*cause)
                },
            },
    ;
}

impl<O, E: IntoCause> Context<O, E> for Result<O, E> {
    open spec fn outcome(self) -> Result<O, E> {
        self
    }

    fn context<T: Render + 'static>(self, kind: T, location: &str) -> (result: Result<O, Error<T>>) {
        match self {
            Ok(value) => Ok(value),
            Err(failure) => Err(
                Error::new(kind, Some(Box::new(failure.into_cause())), Some(location.to_owned())),
            ),
        }
    }

    fn annotate(self, location: &str) -> (result: Result<O, Error<AnnotatedError>>) {
        match self {
            Ok(value) => Ok(value),
            Err(failure) => Err(
                Error::new(
                    AnnotatedError(()),
                    Some(Box::new(failure.into_cause())),
                    Some(location.to_owned()),
                ),
            ),
        }
    }

    fn map_context<T: Render + 'static, F: FnOnce(&E) -> T>(
        self,
        op: F,
        location: &str,
    ) -> (result: Result<O, Error<T>>) {
        match self {
            Ok(value) => Ok(value),
            Err(failure) => {
                let kind = op(&failure);
                Err(
                    Error::new(
                        kind,
                        Some(Box::new(failure.into_cause())),
                        Some(location.to_owned()),
                    ),
                )
            },
        }
    }
}

} // verus!
