//! A lazy parse cache: a tri-state cell that remembers whether a derived
//! value has been computed, has failed to compute, or was never attempted.

use vstd::prelude::*;

verus! {

/// A cached, lazily computed derived value of type `T`.
///
/// The cell itself never computes anything: the code that owns it decides
/// when to parse, stores the outcome with [`Parse::set`] (or
/// [`Parse::set_default`]), and may discard it with [`Parse::reset`].
/// `Failed` is a caller-chosen terminal state that records a parse attempt
/// that produced no value, kept distinct from `Unparsed` ("never tried").
#[derive(Debug, Clone, Copy)]
pub enum Parse<T> {
    /// A derived value has been computed and cached.
    Parsed(T),
    /// A parse was attempted and did not produce a value.
    Failed,
    /// No parse has been attempted since creation or the last reset.
    Unparsed,
}

impl<T> Parse<T> {
    /// Discard any cached or failed state and return to `Unparsed`.
    pub fn reset(&mut self)
        ensures
            *final(self) == Parse::<T>::Unparsed,
    {
        *self = Parse::Unparsed;
    }

    /// Cache `value`, discarding any previous state.
    pub fn set(&mut self, value: T)
        ensures
            *final(self) == Parse::Parsed(value),
    {
        *self = Parse::Parsed(value);
    }

    /// True exactly when no parse has been attempted (`Unparsed`); false for
    /// both `Parsed` and `Failed`.
    pub fn is_unparsed(&self) -> (r: bool)
        ensures
            r <==> *self is Unparsed,
    {
        match self {
            Parse::Unparsed => true,
            _ => false,
        }
    }

    /// True exactly when a parse was attempted and gave up (`Failed`).
    pub fn is_failed(&self) -> (r: bool)
        ensures
            r <==> *self is Failed,
    {
        match self {
            Parse::Failed => true,
            _ => false,
        }
    }
}

impl<T: Default> Parse<T> {
    /// Cache `T`'s default value, discarding any previous state.
    pub fn set_default(&mut self)
        ensures
            *final(self) is Parsed,
            call_ensures(<T as core::default::Default>::default, (), final(self)->Parsed_0),
    {
        *self = Parse::Parsed(T::default());
    }
}

impl<T> Default for Parse<T> {
    /// A fresh cell starts `Unparsed`.
    fn default() -> (r: Self)
        ensures
            r == Parse::<T>::Unparsed,
    {
        Parse::Unparsed
    }
}

} // verus!
