//! What holds between the operations of [`Checked`], for every candidate and
//! every check.

use core::convert::Infallible;
use core::ops::Deref;
use vstd::prelude::*;

use crate::check::Check;
use crate::checked::Checked;

verus! {

/// Construction is sound: where the check of `value` passes with some output,
/// `try_from` succeeds and the wrapper holds exactly that output.
pub proof fn lemma_construction_sound<U: Check>(value: U)
    requires
        value.check_spec() is Ok,
    ensures
        Checked::<U::Ok>::try_from(value) matches Ok(wrapper) && value.check_spec() == Ok::<
            U::Ok,
            U::Err,
        >(wrapper@),
{
    Checked::<U::Ok>::lemma_spec_try_from(value);
}

/// A failure is handed on as it is: where the check of `value` fails with some
/// error, `try_from` fails with that very error.
pub proof fn lemma_failure_propagates<U: Check>(value: U)
    requires
        value.check_spec() is Err,
    ensures
        Checked::<U::Ok>::try_from(value) matches Err(reason) && value.check_spec() == Err::<
            U::Ok,
            U::Err,
        >(reason),
{
    Checked::<U::Ok>::lemma_spec_try_from(value);
}

/// Round trip: for a type whose check hands out the type itself, wrapping a
/// value and unwrapping it again gives what the check produced, and a failed
/// check gives no wrapper to unwrap.
pub proof fn lemma_round_trip<T: Check<Ok = T>>(value: T)
    ensures
        match Checked::<T>::try_from(value) {
            Ok(wrapper) => value.check_spec() == Ok::<T, T::Err>(wrapper.into_inner()),
            Err(reason) => value.check_spec() == Err::<T, T::Err>(reason),
        },
{
    Checked::<T>::lemma_spec_try_from(value);
}

/// The path without error handling runs the same check as the general one:
/// for a candidate whose check passes, `from` builds the wrapper that
/// `try_from` builds.
pub proof fn lemma_from_agrees_with_try_from<T: Check<Err = Infallible>>(value: T)
    requires
        value.check_spec() is Ok,
    ensures
        Checked::<T::Ok>::try_from(value) == Ok::<Checked<T::Ok>, Infallible>(
            Checked::<T>::from(value),
        ),
{
    Checked::<T::Ok>::lemma_spec_try_from(value);
    Checked::<T>::lemma_spec_from(value);
    let by_from = Checked::<T>::from(value);
    let by_try_from = Checked::<T::Ok>::try_from(value).unwrap();
    by_try_from.lemma_view_determines(by_from);
}

/// Reading through a wrapper is reading the plain value: whatever `inspect`
/// computes from the reference that `deref` gives, it computes from the output
/// of the check, and from what `into_inner` returns.
pub proof fn lemma_read_access_transparent<U: Check, R>(value: U, inspect: spec_fn(&U::Ok) -> R)
    ensures
        Checked::<U::Ok>::try_from(value) matches Ok(wrapper) ==> value.check_spec() matches Ok(
            checked,
        ) && inspect(wrapper.deref()) == inspect(&checked) && inspect(wrapper.deref()) == inspect(
            &wrapper.into_inner(),
        ),
{
    Checked::<U::Ok>::lemma_spec_try_from(value);
}

} // verus!
