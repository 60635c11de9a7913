//! Conversions used by the firmware's `unwrap!` helper.
pub use core::fmt::Debug;
use vstd::prelude::*;

verus! {

/// The error an empty `Option` converts to.
#[derive(Debug, Copy, Clone, Eq, PartialEq, Structural)]
pub struct NoneError;

/// A value that is either a success or an error.
pub trait Try: Sized {
    type Ok;
    type Error;

    fn into_result(self) -> Result<Self::Ok, Self::Error>;
}

impl<T> Try for Option<T> {
    type Ok = T;
    type Error = NoneError;

    /// `Some(t)` is `Ok(t)`, `None` is `Err(NoneError)`.
    fn into_result(self) -> (r: Result<T, NoneError>)
        ensures
            r == (match self {
                Some(t) => Ok::<T, NoneError>(t),
                None => Err::<T, NoneError>(NoneError),
            }),
    {
        match self {
            Some(t) => Ok(t),
            None => Err(NoneError),
        }
    }
}

impl<T, E> Try for Result<T, E> {
    type Ok = T;
    type Error = E;

    /// A `Result` is already one.
    fn into_result(self) -> (r: Result<T, E>)
        ensures
            r == self,
    {
        self
    }
}

} // verus!
