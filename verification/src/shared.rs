//! A cheaply clonable, read-only handle to a value.

use std::rc::Rc;
use vstd::prelude::*;

verus! {

/// A reference-counted handle. Clones share the one value.
#[derive(Debug, PartialEq, Eq, Hash)]
pub struct Wrap<T>(Rc<T>);

impl<T> View for Wrap<T> {
    type V = T;

    closed spec fn view(&self) -> T {
        *self.0
    }
}

/// The handle under the short name that colour fields go by.
pub type C<T> = Wrap<T>;

/// `Rc::clone` of the standard library: the new pointer shares the
/// allocation of the old one, so both point at the same value.
#[verifier::external_body]
fn share<T>(rc: &Rc<T>) -> (r: Rc<T>)
    ensures
        *r == **rc,
{
    rc.clone()
}

impl<T> Clone for Wrap<T> {
    /// Another handle to the same value.
    fn clone(&self) -> (w: Self)
        ensures
            w@ == self@,
    {
        Wrap(share(&self.0))
    }
}

impl<T> Wrap<T> {
    /// Puts `t` behind a new handle.
    pub fn new(t: T) -> (w: Self)
        ensures
            w@ == t,
    {
        Wrap(Rc::new(t))
    }

    /// The value behind the handle.
    pub fn get(&self) -> (t: &T)
        ensures
            *t == self@,
    {
        &*self.0
    }
}

} // verus!
