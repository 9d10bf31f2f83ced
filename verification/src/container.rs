//! Generic holders and the storage and parsing interfaces.

use vstd::prelude::*;

verus! {

/// A cell holding one value of any type.
pub struct Container<T> {
    value: T,
}

impl<T> Container<T> {
    /// The held value, visible to specifications.
    pub closed spec fn spec_value(&self) -> T {
        self.value
    }

    /// Wraps `value`.
    pub fn new(value: T) -> (c: Container<T>)
        ensures
            c.spec_value() == value,
    {
        Container { value }
    }

    /// A reference to the held value.
    pub fn get(&self) -> (r: &T)
        ensures
            *r == self.spec_value(),
    {
        &self.value
    }
}

/// Something that keeps items of one kind and hands back the latest.
pub trait Storage {
    type Item;

    fn store(&mut self, item: Self::Item);

    fn retrieve(&self) -> Option<&Self::Item>;
}

/// Something that reads borrowed input into its own output type.
pub trait Parser<'a> {
    type Output;

    fn parse(&self, input: &'a str) -> Self::Output;
}

} // verus!
