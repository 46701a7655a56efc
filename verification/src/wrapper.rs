//! Shares one value behind a reader/writer lock, the shape in which the
//! host process holds a schema index: schema building and index opening
//! take the write side, searches and document writes the read side.

use vstd::prelude::*;

use std::sync::RwLock;

verus! {

#[verifier::external_type_specification]
#[verifier::external_body]
#[verifier::reject_recursive_types(T)]
pub struct ExRwLock<T: ?Sized>(RwLock<T>);

/// One shared value behind a reader/writer lock.
#[verifier::reject_recursive_types(T)]
pub struct Wrapper<T> {
    pub lock: RwLock<T>,
}

impl<T> Wrapper<T> {
    /// Relies on `std::sync::RwLock::new`: a fresh, unlocked lock holding
    /// the value.
    #[verifier::external_body]
    pub fn new(value: T) -> Wrapper<T> {
        Wrapper { lock: RwLock::new(value) }
    }
}

} // verus!
