//! A value that is either borrowed or owned, read the same way.

use vstd::prelude::*;

verus! {

/// Either a reference to a value or the value itself.
pub enum RO<'a, T> {
    Ref(&'a T),
    Owned(T),
}

impl<'a, T> RO<'a, T> {
    /// The value, borrowed or owned.
    pub open spec fn value(&self) -> T {
        match *self {
            RO::Ref(r) => *r,
            RO::Owned(r) => r,
        }
    }
}

impl<'a, T> std::ops::Deref for RO<'a, T> {
    type Target = T;

    fn deref(&self) -> (r: &T)
        ensures
            *r == self.value(),
    {
        match self {
            RO::Ref(r) => *r,
            RO::Owned(r) => r,
        }
    }
}

} // verus!
