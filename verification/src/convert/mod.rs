//! Conversions that reach inside a wrapper.

use vstd::prelude::*;
use vstd::std_specs::convert::IntoSpec;

verus! {

/// Converting what a wrapper holds, and leaving the wrapper as it is.
pub trait MapInto<T> {
    fn map_into(self) -> T;
}

impl<T: Into<U>, U, E> MapInto<Result<U, E>> for Result<T, E> {
    /// Converts the value of a success.  A failure is handed on as it is.
    fn map_into(self) -> (mapped: Result<U, E>)
        ensures
            match self {
                Ok(value) => mapped is Ok && (<T as IntoSpec<U>>::obeys_into_spec() ==> mapped == Ok::<U, E>(
                    <T as IntoSpec<U>>::into_spec(value),
                )),
                Err(error) => mapped == Err::<U, E>(error),
            },
    {
        match self {
            Ok(value) => Ok(value.into()),
            Err(error) => Err(error),
        }
    }
}

impl<T: Into<U>, U> MapInto<Option<U>> for Option<T> {
    /// Converts the value that is there.  Nothing stays nothing.
    fn map_into(self) -> (mapped: Option<U>)
        ensures
            match self {
                Some(value) => mapped is Some && (<T as IntoSpec<U>>::obeys_into_spec() ==> mapped == Some(
                    <T as IntoSpec<U>>::into_spec(value),
                )),
                None => mapped is None,
            },
    {
        match self {
            Some(value) => Some(value.into()),
            None => None,
        }
    }
}

} // verus!
