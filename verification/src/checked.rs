//! The wrapper that only a passed check can produce.

use core::cmp::Ordering;
use core::convert::Infallible;
use core::ops::Deref;
use vstd::prelude::*;
use vstd::std_specs::cmp::PartialEqSpec;
use vstd::std_specs::cmp::PartialOrdSpec;

use crate::check::Check;

verus! {

/// A checked value.
///
/// The field is private and no function hands out a `Checked` without having
/// run [`Check::check`] to success, so the wrapped value is known to have
/// passed. Nothing here changes the value once it is wrapped.
///
/// Equality, ordering and hashing are those of the wrapped value, however the
/// wrapper was built.
#[derive(Debug, Eq, Hash, Ord)]
pub struct Checked<T>(T);

impl<T> View for Checked<T> {
    type V = T;

    /// The wrapped value.
    closed spec fn view(&self) -> T {
        self.0
    }
}

impl<T: Clone> Clone for Checked<T> {
    /// A copy of a wrapper holds a copy of the wrapped value.
    fn clone(&self) -> (copy: Self)
        ensures
            cloned(self@, copy@),
    {
        Checked(self.0.clone())
    }
}

impl<T: PartialEq> PartialEq for Checked<T> {
    /// Two wrappers are equal exactly when the values they hold are.
    fn eq(&self, other: &Self) -> (same: bool) {
        self.0 == other.0
    }
}

impl<T: PartialEq> vstd::std_specs::cmp::PartialEqSpecImpl for Checked<T> {
    /// `==` on wrappers means what `eq_spec` says wherever `==` on the
    /// wrapped type means what its own `eq_spec` says.
    open spec fn obeys_eq_spec() -> bool {
        T::obeys_eq_spec()
    }

    /// Equality of wrappers is equality of the wrapped values.
    open spec fn eq_spec(&self, other: &Self) -> bool {
        self@.eq_spec(&other@)
    }
}

impl<T: PartialOrd> PartialOrd for Checked<T> {
    /// Two wrappers are ordered as the values they hold.
    fn partial_cmp(&self, other: &Self) -> (order: Option<Ordering>) {
        self.0.partial_cmp(&other.0)
    }
}

impl<T: PartialOrd> vstd::std_specs::cmp::PartialOrdSpecImpl for Checked<T> {
    /// Comparing wrappers means what `partial_cmp_spec` says wherever
    /// comparing values of the wrapped type means what its own says.
    open spec fn obeys_partial_cmp_spec() -> bool {
        T::obeys_partial_cmp_spec()
    }

    /// The order of wrappers is the order of the wrapped values.
    open spec fn partial_cmp_spec(&self, other: &Self) -> Option<Ordering> {
        self@.partial_cmp_spec(&other@)
    }
}

/// The reference that [`Checked::deref`] returns: one to the wrapped value.
pub open spec fn spec_deref<T>(wrapper: &Checked<T>) -> &T {
    &wrapper@
}

impl<T> Checked<T> {
    /// What [`Checked::try_from`] returns for `value`: the outcome of the
    /// check, with a passed one wrapped.
    pub closed spec fn spec_try_from<U: Check<Ok = T>>(value: U) -> Result<Self, U::Err> {
        match value.check_spec() {
            Ok(checked) => Ok(Checked(checked)),
            Err(reason) => Err(reason),
        }
    }

    /// Check a value.
    ///
    /// Returns the wrapped output of the check if it passes, and the check's
    /// own error, untouched, if it fails.
    #[verifier::when_used_as_spec(spec_try_from)]
    pub fn try_from<U: Check<Ok = T>>(value: U) -> (built: Result<Self, U::Err>)
        ensures
            built == Self::spec_try_from(value),
            value.check_spec() matches Ok(checked) ==> (built matches Ok(wrapper) && wrapper@
                == checked),
            value.check_spec() matches Err(reason) ==> (built matches Err(given) && given
                == reason),
    {
        match value.check() {
            Ok(checked) => Ok(Checked(checked)),
            Err(reason) => Err(reason),
        }
    }

    /// The value that [`Checked::into_inner`] returns.
    pub open spec fn spec_into_inner(self) -> T {
        self@
    }

    /// Retrieve the inner value, dropping the evidence that it was checked.
    #[verifier::when_used_as_spec(spec_into_inner)]
    pub fn into_inner(self) -> (inner: T)
        ensures
            inner == self@,
    {
        self.0
    }

    /// A wrapper is nothing but the value it holds: two wrappers of the same
    /// value are the same wrapper.
    pub proof fn lemma_view_determines(self, other: Self)
        requires
            self@ == other@,
        ensures
            self == other,
    {
    }

    /// `spec_try_from` in terms of the wrapped value: it is `Ok` exactly when
    /// the check passes, then holds what the check handed out, and otherwise
    /// is the check's error.
    pub proof fn lemma_spec_try_from<U: Check<Ok = T>>(value: U)
        ensures
            match Self::spec_try_from(value) {
                Ok(wrapper) => value.check_spec() == Ok::<T, U::Err>(wrapper@),
                Err(reason) => value.check_spec() == Err::<T, U::Err>(reason),
            },
    {
    }
}

impl<T: Check<Err = Infallible>> Checked<T> {
    /// What [`Checked::from`] returns for a `value` whose check passes: the
    /// output of the check, wrapped.
    pub closed spec fn spec_from(value: T) -> Checked<T::Ok> {
        Checked(value.check_spec().unwrap())
    }

    /// Construct a checked value from a candidate whose check cannot fail.
    ///
    /// The check still runs; only the error handling is spared. An error type
    /// without values leaves a check nothing to fail with, which is what the
    /// precondition says of `value`.
    #[verifier::when_used_as_spec(spec_from)]
    pub fn from(value: T) -> (built: Checked<T::Ok>)
        requires
            value.check_spec() is Ok,
        ensures
            built == Self::spec_from(value),
            value.check_spec() == Ok::<T::Ok, Infallible>(built@),
    {
        Checked(value.check().expect("infallible"))
    }

    /// `spec_from` in terms of the wrapped value: where the check passes, the
    /// wrapper holds what the check handed out.
    pub proof fn lemma_spec_from(value: T)
        requires
            value.check_spec() is Ok,
        ensures
            value.check_spec() == Ok::<T::Ok, Infallible>(Self::spec_from(value)@),
    {
    }
}

impl<T> Deref for Checked<T> {
    type Target = T;

    /// Read access to the wrapped value.
    #[verifier::when_used_as_spec(spec_deref)]
    fn deref(&self) -> (inner: &T)
        ensures
            *inner == self@,
    {
        &self.0
    }
}

} // verus!
