//! Small helpers.

pub mod stack_vec;

use vstd::prelude::*;
use crate::info::Features;

verus! {

/// Results of which a failure can be declared fatal.
pub trait FailFast: Sized {
    /// Under these features, this result is a failure that must not be
    /// survived.
    spec fn fatal(&self, features: Features) -> bool;

    /// Whether this result is a failure that must not be survived.
    fn is_fatal(&self, features: &Features) -> (yes: bool)
        ensures
            yes == self.fatal(*features),
    ;

    /// Hands a result on that is not fatal.  What to do with one that is, is
    /// for the caller to decide before it comes here.
    fn fail_fast(self, features: &Features) -> (same: Self)
        requires
            !self.fatal(*features),
        ensures
            same == self,
    ;
}

impl<T, E> FailFast for Result<T, E> {
    /// Where failures are validated, every failure is fatal.
    open spec fn fatal(&self, features: Features) -> bool {
        features.validation && self is Err
    }

    fn is_fatal(&self, features: &Features) -> (yes: bool) {
        features.validation && self.is_err()
    }

    fn fail_fast(self, features: &Features) -> (same: Self) {
        self
    }
}

} // verus!
