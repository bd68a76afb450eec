//! The mutable cell: a single slot that always holds exactly one value.
//!
//! Every operation substitutes or reads the whole contents.  The slot is never
//! empty between construction and destruction: each mutating operation moves
//! the old value out before the caller (or the runtime) destroys it, so a
//! destructor can never observe a half-moved slot.
//!
//! Reading by copy ([`Cell::get`]) is restricted to types whose duplicate
//! operation carries the [`PureClone`](crate::clone::PureClone) capability:
//! such an operation is trusted not to mutate or free the slot it is reading
//! through.

use vstd::prelude::*;
use vstd::std_specs::cmp::PartialEqSpec;
use vstd::std_specs::cmp::PartialOrdSpec;

use crate::clone::PureClone;

verus! {

/// A single memory slot holding exactly one value of type `T`.
///
/// The abstract value of a cell (its view) is the value it currently holds.
/// The cell owns its contents exclusively; callers obtain copies through
/// [`Cell::get`], or exclusive access through [`Cell::get_mut`].
pub struct Cell<T> {
    value: T,
}

impl<T> View for Cell<T> {
    type V = T;

    closed spec fn view(&self) -> T {
        self.value
    }
}

/// The abstract contents of a freshly constructed cell: exactly the value it
/// was given.
pub open spec fn spec_new<T>(value: T) -> T {
    value
}

/// The abstract effect of substituting `value` into a cell whose contents are
/// `contents`: the pair of the value handed back and the new contents.
pub open spec fn spec_replace<T>(contents: T, value: T) -> (T, T) {
    (contents, value)
}

impl<T> Cell<T> {
    /// Creates a new `Cell` containing the given value.
    pub fn new(value: T) -> (c: Self)
        ensures
            c@ == spec_new(value),
    {
        Cell { value }
    }

    /// Replaces the contained value with `value` and returns the old value.
    ///
    /// The old value is moved out of the slot before it is handed to the
    /// caller, so its destruction can never observe the slot mid-move.
    pub fn replace(&mut self, value: T) -> (r: T)
        ensures
            (r, final(self)@) == spec_replace(old(self)@, value),
    {
        let mut value = value;
        core::mem::swap(&mut self.value, &mut value);
        value
    }

    /// Sets the contained value, destroying the previous contents.
    ///
    /// The previous contents are moved out of the slot first and destroyed
    /// only afterwards, never in place.
    pub fn set(&mut self, value: T)
        ensures
            final(self)@ == value,
    {
        let _ = self.replace(value);
    }

    /// Consumes the cell and returns the contained value without duplicating
    /// it.  Taking the cell by value is the proof of sole ownership.
    pub fn into_inner(self) -> (r: T)
        ensures
            r == self@,
    {
        self.value
    }

    /// Returns a copy of the contained value.
    ///
    /// The copy is produced by the contents' trusted duplicate operation,
    /// which by the terms of the [`PureClone`] grant returns an equal value
    /// and leaves the slot untouched; the cell adds no further checks because
    /// the grant is the entire safety argument.
    pub fn get(&self) -> (r: T) where T: PureClone
        ensures
            r == self@,
    {
        self.value.pure_clone()
    }

    /// Takes the value of the cell, leaving the type's default value in its
    /// place and returning the old contents.
    pub fn take(&mut self) -> (r: T) where T: Default
        ensures
            r == old(self)@,
            call_ensures(T::default, (), final(self)@),
    {
        self.replace(T::default())
    }

    /// Exchanges the contents of two cells.  No duplicate operation runs on
    /// either value: each is moved whole from one slot to the other.
    ///
    /// Exclusive access to both cells rules out, at the type level, handing
    /// the same cell twice or two views of overlapping storage, so the
    /// exchange is always well defined.
    pub fn swap(&mut self, other: &mut Cell<T>)
        ensures
            final(self)@ == old(other)@,
            final(other)@ == old(self)@,
    {
        core::mem::swap(&mut self.value, &mut other.value);
    }

    /// Returns an exclusive reference to the contained value, without
    /// duplicating it and without requiring any capability.  Exclusive access
    /// to the cell itself is the proof of unique access to its slot.
    pub fn get_mut(&mut self) -> (r: &mut T)
        ensures
            *r == old(self)@,
            final(self)@ == *final(r),
    {
        &mut self.value
    }
}

impl<T> Cell<Vec<T>> {
    /// Adapts a cell over a sequence of elements into one cell per element.
    ///
    /// Element `i` of the result holds exactly element `i` of the sequence;
    /// nothing is duplicated, each element is moved into its own cell.  This
    /// turns interior mutability over a whole sequence into per-element
    /// interior mutability; consuming the cell is what proves that no other
    /// view of the sequence remains.
    pub fn into_element_cells(self) -> (r: Vec<Cell<T>>)
        ensures
            r@.len() == self@.len(),
            forall|i: int| 0 <= i < r@.len() ==> (#[trigger] r@[i])@ == self@[i],
    {
        let mut v = self.into_inner();
        let ghost s = v@;
        let mut r: Vec<Cell<T>> = Vec::new();
        while v.len() > 0
            invariant
                r@.len() + v@.len() == s.len(),
                v@ == s.skip(r@.len() as int),
                forall|k: int| 0 <= k < r@.len() ==> (#[trigger] r@[k])@ == s[k],
            decreases v@.len(),
        {
            let ghost done = r@.len() as int;
            let x = v.remove(0);
            r.push(Cell::new(x));
            proof {
                assert(x == s[done]);
                assert(v@ =~= s.skip(done + 1));
            }
        }
        r
    }
}

/// Substitution through a cell is faithful and ordered: storing `v1` and then
/// replacing it by `v2` hands `v1` back and leaves the cell holding `v2`.
pub proof fn lemma_replace_faithful<T>(v1: T, v2: T)
    ensures
        spec_replace(spec_new(v1), v2).0 == v1,
        spec_replace(spec_new(v1), v2).1 == v2,
{
}

impl<T: PureClone> Clone for Cell<T> {
    /// Duplicates the cell by duplicating its contents through their
    /// capability-bearing duplicate operation.
    fn clone(&self) -> (r: Self)
        ensures
            r@ == self@,
    {
        Cell::new(self.get())
    }
}

impl<T: Default> Default for Cell<T> {
    /// A cell holding the contained type's default value.
    fn default() -> (c: Self)
        ensures
            call_ensures(T::default, (), c@),
    {
        Cell::new(T::default())
    }
}

impl<T> From<T> for Cell<T> {
    /// Wraps a value, exactly as [`Cell::new`] does.
    fn from(t: T) -> (c: Self) {
        Cell::new(t)
    }
}

impl<T> vstd::std_specs::convert::FromSpecImpl<T> for Cell<T> {
    open spec fn obeys_from_spec() -> bool {
        true
    }

    closed spec fn from_spec(t: T) -> Self {
        Cell { value: t }
    }
}

/// Conversion into a cell wraps the value exactly: the converted cell's
/// contents are the value given.
pub proof fn lemma_from_cell_view<T>(t: T)
    ensures
        (<Cell<T> as vstd::std_specs::convert::FromSpec<T>>::from_spec(t))@ == t,
{
}

impl<T: PartialEq + PureClone> PartialEq for Cell<T> {
    /// Two cells compare equal when copies of their contents do.
    fn eq(&self, other: &Self) -> (r: bool) {
        self.get().eq(&other.get())
    }
}

impl<T: PartialEq + PureClone> vstd::std_specs::cmp::PartialEqSpecImpl for Cell<T> {
    open spec fn obeys_eq_spec() -> bool {
        T::obeys_eq_spec()
    }

    open spec fn eq_spec(&self, other: &Self) -> bool {
        self@.eq_spec(&other@)
    }
}

impl<T: Eq + PureClone> Eq for Cell<T> {}

impl<T: PartialOrd + PureClone> PartialOrd for Cell<T> {
    /// Cells order as copies of their contents do.
    fn partial_cmp(&self, other: &Self) -> (r: Option<core::cmp::Ordering>) {
        self.get().partial_cmp(&other.get())
    }

    fn lt(&self, other: &Self) -> (r: bool) {
        self.get().lt(&other.get())
    }

    fn le(&self, other: &Self) -> (r: bool) {
        self.get().le(&other.get())
    }

    fn gt(&self, other: &Self) -> (r: bool) {
        self.get().gt(&other.get())
    }

    fn ge(&self, other: &Self) -> (r: bool) {
        self.get().ge(&other.get())
    }
}

impl<T: PartialOrd + PureClone> vstd::std_specs::cmp::PartialOrdSpecImpl for Cell<T> {
    open spec fn obeys_partial_cmp_spec() -> bool {
        T::obeys_partial_cmp_spec()
    }

    open spec fn partial_cmp_spec(&self, other: &Self) -> Option<core::cmp::Ordering> {
        self@.partial_cmp_spec(&other@)
    }
}

} // verus!
