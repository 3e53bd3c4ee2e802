//! A field value that tells "absent from the submission" apart from
//! "submitted as null" — what a plain `Option` flattens into one case.

use vstd::prelude::*;

verus! {

/// `Missed`: the field was not in the submission at all.
/// `Present(None)`: it was there, as an explicit null.
/// `Present(Some(v))`: it was there with a value.
#[derive(Debug, PartialEq)]
pub enum Missable<T> {
    Missed,
    Present(Option<T>),
}

impl<T> Default for Missable<T> {
    /// An absent field is the default.
    fn default() -> (r: Self)
        ensures
            r is Missed,
    {
        Missable::Missed
    }
}

impl<T: Default> Missable<T> {
    /// The value if one was submitted, the type's default otherwise.
    pub fn deep_unwrap_or_default(self) -> (r: T)
        ensures
            self matches Missable::Present(Some(v)) ==> r == v,
            !(self matches Missable::Present(Some(_))) ==> call_ensures(T::default, (), r),
    {
        match self {
            Missable::Missed => T::default(),
            Missable::Present(o) => match o {
                Some(v) => v,
                None => T::default(),
            },
        }
    }

    /// The value if one was submitted, what `f` makes otherwise.
    pub fn deep_unwrap_or_else<F: FnOnce() -> T>(self, f: F) -> (r: T)
        requires
            !(self matches Missable::Present(Some(_))) ==> call_requires(f, ()),
        ensures
            self matches Missable::Present(Some(v)) ==> r == v,
            !(self matches Missable::Present(Some(_))) ==> call_ensures(f, (), r),
    {
        match self {
            Missable::Missed => f(),
            Missable::Present(o) => match o {
                Some(v) => v,
                None => f(),
            },
        }
    }
}

} // verus!
