//! The capability marker [`PureClone`] and its base compliance set.
//!
//! A type holds the capability when its duplicate operation, run on a
//! reference into a cell's slot, never reaches back into that cell: it must
//! return an independent value equal to the one it was shown, and do nothing
//! else.  The trait states that obligation as a contract, so every
//! implementation inside this crate is proved to meet it.
//!
//! The base compliance set granted here:
//! - fixed-width integer scalars, `bool` and `char` (duplication is a bitwise
//!   copy);
//! - plain shared references (duplication copies the reference);
//! - shared-ownership pointers `Rc` and `Arc`, unconditionally: duplicating
//!   one only adjusts a reference count and never touches the pointee;
//! - `Box`, `Option`, `Result` and tuples, conditionally on their
//!   parameters, because these duplicate by duplicating their contents.

use vstd::prelude::*;

use std::rc::Rc;
use std::sync::Arc;

verus! {

/// The capability marker: a duplicate operation that is safe to run while the
/// original value sits behind a mutable cell.
///
/// The contract is faithfulness: the copy equals the original.  Since every
/// implementation is a pure function of the value it is shown, it cannot
/// mutate or free the slot it reads through; that is the whole safety
/// argument [`Cell::get`](crate::cell::Cell::get) relies on.
pub trait PureClone: Sized {
    fn pure_clone(&self) -> (r: Self)
        ensures
            r == *self,
    ;
}

impl PureClone for bool {
    fn pure_clone(&self) -> (r: Self)
        ensures
            r == *self,
    {
        *self
    }
}

impl PureClone for char {
    fn pure_clone(&self) -> (r: Self)
        ensures
            r == *self,
    {
        *self
    }
}

impl PureClone for u8 {
    fn pure_clone(&self) -> (r: Self)
        ensures
            r == *self,
    {
        *self
    }
}

impl PureClone for u16 {
    fn pure_clone(&self) -> (r: Self)
        ensures
            r == *self,
    {
        *self
    }
}

impl PureClone for u32 {
    fn pure_clone(&self) -> (r: Self)
        ensures
            r == *self,
    {
        *self
    }
}

impl PureClone for u64 {
    fn pure_clone(&self) -> (r: Self)
        ensures
            r == *self,
    {
        *self
    }
}

impl PureClone for u128 {
    fn pure_clone(&self) -> (r: Self)
        ensures
            r == *self,
    {
        *self
    }
}

impl PureClone for usize {
    fn pure_clone(&self) -> (r: Self)
        ensures
            r == *self,
    {
        *self
    }
}

impl PureClone for i8 {
    fn pure_clone(&self) -> (r: Self)
        ensures
            r == *self,
    {
        *self
    }
}

impl PureClone for i16 {
    fn pure_clone(&self) -> (r: Self)
        ensures
            r == *self,
    {
        *self
    }
}

impl PureClone for i32 {
    fn pure_clone(&self) -> (r: Self)
        ensures
            r == *self,
    {
        *self
    }
}

impl PureClone for i64 {
    fn pure_clone(&self) -> (r: Self)
        ensures
            r == *self,
    {
        *self
    }
}

impl PureClone for i128 {
    fn pure_clone(&self) -> (r: Self)
        ensures
            r == *self,
    {
        *self
    }
}

impl PureClone for isize {
    fn pure_clone(&self) -> (r: Self)
        ensures
            r == *self,
    {
        *self
    }
}

impl<'a, T> PureClone for &'a T {
    fn pure_clone(&self) -> (r: Self)
        ensures
            r == *self,
    {
        *self
    }
}

/// Relies on `Rc::clone`: the duplicate points at the same allocation as the
/// original, so it carries the same value; only the reference count changes.
#[verifier::external_body]
fn clone_rc<T>(rc: &Rc<T>) -> (r: Rc<T>)
    ensures
        r == *rc,
{
    rc.clone()
}

/// Relies on `Arc::clone`: the duplicate points at the same allocation as the
/// original, so it carries the same value; only the reference count changes.
#[verifier::external_body]
fn clone_arc<T>(arc: &Arc<T>) -> (r: Arc<T>)
    ensures
        r == *arc,
{
    arc.clone()
}

impl<T> PureClone for Rc<T> {
    fn pure_clone(&self) -> (r: Self)
        ensures
            r == *self,
    {
        clone_rc(self)
    }
}

impl<T> PureClone for Arc<T> {
    fn pure_clone(&self) -> (r: Self)
        ensures
            r == *self,
    {
        clone_arc(self)
    }
}

impl<T: PureClone> PureClone for Box<T> {
    fn pure_clone(&self) -> (r: Self)
        ensures
            r == *self,
    {
        Box::new((**self).pure_clone())
    }
}

impl<T: PureClone> PureClone for Option<T> {
    fn pure_clone(&self) -> (r: Self)
        ensures
            r == *self,
    {
        match self {
            Some(v) => Some(v.pure_clone()),
            None => None,
        }
    }
}

impl<T: PureClone, E: PureClone> PureClone for Result<T, E> {
    fn pure_clone(&self) -> (r: Self)
        ensures
            r == *self,
    {
        match self {
            Ok(v) => Ok(v.pure_clone()),
            Err(e) => Err(e.pure_clone()),
        }
    }
}

impl PureClone for () {
    fn pure_clone(&self) -> (r: Self)
        ensures
            r == *self,
    {
    }
}

impl<A: PureClone> PureClone for (A,) {
    fn pure_clone(&self) -> (r: Self)
        ensures
            r == *self,
    {
        (self.0.pure_clone(),)
    }
}

impl<A: PureClone, B: PureClone> PureClone for (A, B) {
    fn pure_clone(&self) -> (r: Self)
        ensures
            r == *self,
    {
        (self.0.pure_clone(), self.1.pure_clone())
    }
}

impl<A: PureClone, B: PureClone, C: PureClone> PureClone for (A, B, C) {
    fn pure_clone(&self) -> (r: Self)
        ensures
            r == *self,
    {
        (self.0.pure_clone(), self.1.pure_clone(), self.2.pure_clone())
    }
}

impl<A: PureClone, B: PureClone, C: PureClone, D: PureClone> PureClone for (A, B, C, D) {
    fn pure_clone(&self) -> (r: Self)
        ensures
            r == *self,
    {
        (self.0.pure_clone(), self.1.pure_clone(), self.2.pure_clone(), self.3.pure_clone())
    }
}

impl<A: PureClone, B: PureClone, C: PureClone, D: PureClone, E: PureClone> PureClone for (A, B, C, D, E) {
    fn pure_clone(&self) -> (r: Self)
        ensures
            r == *self,
    {
        (self.0.pure_clone(), self.1.pure_clone(), self.2.pure_clone(), self.3.pure_clone(), self.4.pure_clone())
    }
}

impl<A: PureClone, B: PureClone, C: PureClone, D: PureClone, E: PureClone, F: PureClone> PureClone for (A, B, C, D, E, F) {
    fn pure_clone(&self) -> (r: Self)
        ensures
            r == *self,
    {
        (self.0.pure_clone(), self.1.pure_clone(), self.2.pure_clone(), self.3.pure_clone(), self.4.pure_clone(), self.5.pure_clone())
    }
}

impl<A: PureClone, B: PureClone, C: PureClone, D: PureClone, E: PureClone, F: PureClone, G: PureClone> PureClone for (A, B, C, D, E, F, G) {
    fn pure_clone(&self) -> (r: Self)
        ensures
            r == *self,
    {
        (self.0.pure_clone(), self.1.pure_clone(), self.2.pure_clone(), self.3.pure_clone(), self.4.pure_clone(), self.5.pure_clone(), self.6.pure_clone())
    }
}

impl<A: PureClone, B: PureClone, C: PureClone, D: PureClone, E: PureClone, F: PureClone, G: PureClone, H: PureClone> PureClone for (A, B, C, D, E, F, G, H) {
    fn pure_clone(&self) -> (r: Self)
        ensures
            r == *self,
    {
        (self.0.pure_clone(), self.1.pure_clone(), self.2.pure_clone(), self.3.pure_clone(), self.4.pure_clone(), self.5.pure_clone(), self.6.pure_clone(), self.7.pure_clone())
    }
}

impl<A: PureClone, B: PureClone, C: PureClone, D: PureClone, E: PureClone, F: PureClone, G: PureClone, H: PureClone, I: PureClone> PureClone for (A, B, C, D, E, F, G, H, I) {
    fn pure_clone(&self) -> (r: Self)
        ensures
            r == *self,
    {
        (self.0.pure_clone(), self.1.pure_clone(), self.2.pure_clone(), self.3.pure_clone(), self.4.pure_clone(), self.5.pure_clone(), self.6.pure_clone(), self.7.pure_clone(), self.8.pure_clone())
    }
}

impl<A: PureClone, B: PureClone, C: PureClone, D: PureClone, E: PureClone, F: PureClone, G: PureClone, H: PureClone, I: PureClone, J: PureClone> PureClone for (A, B, C, D, E, F, G, H, I, J) {
    fn pure_clone(&self) -> (r: Self)
        ensures
            r == *self,
    {
        (self.0.pure_clone(), self.1.pure_clone(), self.2.pure_clone(), self.3.pure_clone(), self.4.pure_clone(), self.5.pure_clone(), self.6.pure_clone(), self.7.pure_clone(), self.8.pure_clone(), self.9.pure_clone())
    }
}

impl<A: PureClone, B: PureClone, C: PureClone, D: PureClone, E: PureClone, F: PureClone, G: PureClone, H: PureClone, I: PureClone, J: PureClone, K: PureClone> PureClone for (A, B, C, D, E, F, G, H, I, J, K) {
    fn pure_clone(&self) -> (r: Self)
        ensures
            r == *self,
    {
        (self.0.pure_clone(), self.1.pure_clone(), self.2.pure_clone(), self.3.pure_clone(), self.4.pure_clone(), self.5.pure_clone(), self.6.pure_clone(), self.7.pure_clone(), self.8.pure_clone(), self.9.pure_clone(), self.10.pure_clone())
    }
}

impl<A: PureClone, B: PureClone, C: PureClone, D: PureClone, E: PureClone, F: PureClone, G: PureClone, H: PureClone, I: PureClone, J: PureClone, K: PureClone, L: PureClone> PureClone for (A, B, C, D, E, F, G, H, I, J, K, L) {
    fn pure_clone(&self) -> (r: Self)
        ensures
            r == *self,
    {
        (self.0.pure_clone(), self.1.pure_clone(), self.2.pure_clone(), self.3.pure_clone(), self.4.pure_clone(), self.5.pure_clone(), self.6.pure_clone(), self.7.pure_clone(), self.8.pure_clone(), self.9.pure_clone(), self.10.pure_clone(), self.11.pure_clone())
    }
}

} // verus!
