//! Values that carry the fact that they passed a check.
//!
//! A type says what it means for one of its values to be valid by implementing
//! [`Check`]. A [`Checked<T>`] can only be built by running such a check to
//! success, so holding one is evidence that the value inside went through it.

pub mod check;
pub mod checked;
pub mod laws;

pub use check::Check;
pub use checked::Checked;
