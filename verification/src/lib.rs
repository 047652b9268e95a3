//! A single generic capability through which code can iterate uniformly over
//! "one value" or "many values" of the same element type.
//!
//! The [`Pluralize`] trait gives a bare element and a growable sequence of
//! elements the same indexed, ordered view: one logical element for a bare
//! value, `n` logical elements for a sequence. Generic code bounded by
//! `Pluralize<T>` therefore works whether it is handed a plain `T`, a
//! `Vec<T>`, or the tagged [`Plural`] value that carries either.

use vstd::prelude::*;

pub mod iter;
pub mod jank;

pub use iter::AddController;
pub use iter::Adder;
pub use iter::RemoveCmd;
pub use iter::RemoveController;
pub use iter::RemoveError;
pub use iter::Remover;
pub use jank::JankIter;
pub use jank::JankIterMut;

verus! {

/// A value that is logically either a single element or an ordered, growable
/// sequence of elements.
pub enum Plural<T> {
    /// Exactly one element; it cannot grow or shrink.
    Single(T),
    /// Any number of elements, in insertion order, duplicates allowed.
    Many(Vec<T>),
}

/// The uniform sequence view capability, implemented across both collections
/// and bare elements.
///
/// `pview` is the logical content: a one-element sequence for a bare value,
/// the elements in order for a collection. Every other method is specified
/// against it.
pub trait Pluralize<T>: Sized {
    /// The logical elements, in order.
    spec fn pview(&self) -> Seq<T>;

    /// Whether the value can gain and lose elements (a sequence) or not (a
    /// bare element).
    spec fn growable(&self) -> bool;

    /// The number of logical elements.
    fn plen(&self) -> (n: usize)
        ensures
            n == self.pview().len(),
    ;

    /// A read-only walk over all logical elements, in order.
    fn pluralize(&self) -> (it: JankIter)
        ensures
            it.pos == 0,
            it.end == self.pview().len(),
    ;

    /// An exclusive walk over all logical elements, in order; the indices it
    /// hands out feed `pget` and `pset`.
    fn pluralize_mut(&mut self) -> (it: JankIterMut)
        ensures
            *final(self) == *old(self),
            it.pos == 0,
            it.end == old(self).pview().len(),
    ;

    /// Read the element at index `i` of the view.
    fn pget(&self, i: usize) -> (r: &T)
        requires
            i < self.pview().len(),
        ensures
            *r == self.pview()[i as int],
    ;

    /// Replace the element at index `i` of the view.
    fn pset(&mut self, i: usize, v: T)
        requires
            i < old(self).pview().len(),
        ensures
            final(self).pview() == old(self).pview().update(i as int, v),
            final(self).growable() == old(self).growable(),
    ;

    /// Report whether the value can grow, as an executable test of `growable`.
    fn is_growable(&self) -> (b: bool)
        ensures
            b == self.growable(),
    ;

    /// Append `v` after the last element when the value is growable; report
    /// whether it grew. A bare element is left untouched.
    fn grow(&mut self, v: T) -> (grew: bool)
        ensures
            grew == old(self).growable(),
            final(self).growable() == old(self).growable(),
            grew ==> final(self).pview() == old(self).pview().push(v),
            !grew ==> *final(self) == *old(self),
    ;

    /// Remove the element at index `i`, shifting the elements after it one
    /// position left, when the value is growable; report whether it shrank.
    /// A bare element is left untouched.
    fn shrink(&mut self, i: usize) -> (shrank: bool)
        requires
            i < old(self).pview().len(),
        ensures
            shrank == old(self).growable(),
            final(self).growable() == old(self).growable(),
            shrank ==> final(self).pview() == old(self).pview().remove(i as int),
            !shrank ==> *final(self) == *old(self),
    ;
}

/// A trait enabling further mutation of `Pluralize` values through the two
/// controller-cursor objects: the value moves into the cursor and comes back
/// through `into_inner` when iteration ends.
pub trait PluralizeControlIter<T, P: Pluralize<T>>: Sized {
    /// The plural the cursor will own: the value itself.
    spec fn plural(self) -> P;

    /// Wrap the value in an appender cursor.
    fn adder(self) -> (a: Adder<T, P>)
        ensures
            a.collection == self.plural(),
            a.controller.cell is None,
            a.first_run,
            !a.done,
    ;

    /// Wrap the value in a remover cursor.
    fn remover(self) -> (r: Remover<T, P>)
        ensures
            r.collection == self.plural(),
            r.pos == 0,
            r.controller.cell is Pass,
            r.wf(),
    ;
}

impl<T: Pluralize<T>, P: Pluralize<T>> PluralizeControlIter<T, P> for P {
    open spec fn plural(self) -> P {
        self
    }

    fn adder(self) -> (a: Adder<T, P>) {
        Adder::new(self)
    }

    fn remover(self) -> (r: Remover<T, P>) {
        Remover::new(self)
    }
}

impl<T> Pluralize<T> for Plural<T> {
    open spec fn pview(&self) -> Seq<T> {
        match self {
            Plural::Single(x) => seq![*x],
            Plural::Many(v) => v@,
        }
    }

    open spec fn growable(&self) -> bool {
        match self {
            Plural::Single(_) => false,
            Plural::Many(_) => true,
        }
    }

    fn plen(&self) -> (n: usize) {
        match self {
            Plural::Single(_) => 1,
            Plural::Many(v) => v.len(),
        }
    }

    fn pluralize(&self) -> (it: JankIter) {
        JankIter::new(self.plen())
    }

    fn pluralize_mut(&mut self) -> (it: JankIterMut) {
        JankIterMut::new(self.plen())
    }

    fn pget(&self, i: usize) -> (r: &T) {
        match self {
            Plural::Single(x) => x,
            Plural::Many(v) => &v[i],
        }
    }

    fn pset(&mut self, i: usize, v: T) {
        match self {
            Plural::Single(x) => {
                *x = v;
            }
            Plural::Many(vec) => {
                let slot = &mut vec[i];
                *slot = v;
            }
        }
        proof {
            assert(self.pview() =~= old(self).pview().update(i as int, v));
        }
    }

    fn is_growable(&self) -> (b: bool) {
        match self {
            Plural::Single(_) => false,
            Plural::Many(_) => true,
        }
    }

    fn grow(&mut self, v: T) -> (grew: bool) {
        match self {
            Plural::Single(_) => false,
            Plural::Many(vec) => {
                vec.push(v);
                true
            }
        }
    }

    fn shrink(&mut self, i: usize) -> (shrank: bool) {
        match self {
            Plural::Single(_) => false,
            Plural::Many(vec) => {
                vec.remove(i);
                true
            }
        }
    }
}

impl<T: Pluralize<T>> Pluralize<T> for Vec<T> {
    open spec fn pview(&self) -> Seq<T> {
        self@
    }

    open spec fn growable(&self) -> bool {
        true
    }

    fn plen(&self) -> (n: usize) {
        self.len()
    }

    fn pluralize(&self) -> (it: JankIter) {
        JankIter::new(self.len())
    }

    fn pluralize_mut(&mut self) -> (it: JankIterMut) {
        JankIterMut::new(self.len())
    }

    fn pget(&self, i: usize) -> (r: &T) {
        &self[i]
    }

    fn pset(&mut self, i: usize, v: T) {
        let slot = &mut self[i];
        *slot = v;
    }

    fn is_growable(&self) -> (b: bool) {
        true
    }

    fn grow(&mut self, v: T) -> (grew: bool) {
        self.push(v);
        true
    }

    fn shrink(&mut self, i: usize) -> (shrank: bool) {
        self.remove(i);
        true
    }
}

impl<T: Pluralize<T>> Pluralize<T> for Box<T> {
    open spec fn pview(&self) -> Seq<T> {
        (**self).pview()
    }

    open spec fn growable(&self) -> bool {
        (**self).growable()
    }

    fn plen(&self) -> (n: usize) {
        (**self).plen()
    }

    fn pluralize(&self) -> (it: JankIter) {
        (**self).pluralize()
    }

    fn pluralize_mut(&mut self) -> (it: JankIterMut) {
        (**self).pluralize_mut()
    }

    fn pget(&self, i: usize) -> (r: &T) {
        (**self).pget(i)
    }

    fn pset(&mut self, i: usize, v: T) {
        (**self).pset(i, v);
    }

    fn is_growable(&self) -> (b: bool) {
        (**self).is_growable()
    }

    fn grow(&mut self, v: T) -> (grew: bool) {
        (**self).grow(v)
    }

    fn shrink(&mut self, i: usize) -> (shrank: bool) {
        (**self).shrink(i)
    }
}

impl Pluralize<usize> for usize {
    open spec fn pview(&self) -> Seq<usize> {
        seq![*self]
    }

    open spec fn growable(&self) -> bool {
        false
    }

    fn plen(&self) -> (n: usize) {
        1
    }

    fn pluralize(&self) -> (it: JankIter) {
        JankIter::new(1)
    }

    fn pluralize_mut(&mut self) -> (it: JankIterMut) {
        JankIterMut::new(1)
    }

    fn pget(&self, i: usize) -> (r: &usize) {
        self
    }

    fn pset(&mut self, i: usize, v: usize) {
        *self = v;
        proof {
            assert(self.pview() =~= old(self).pview().update(i as int, v));
        }
    }

    fn is_growable(&self) -> (b: bool) {
        false
    }

    fn grow(&mut self, v: usize) -> (grew: bool) {
        false
    }

    fn shrink(&mut self, i: usize) -> (shrank: bool) {
        false
    }
}

impl Pluralize<u64> for u64 {
    open spec fn pview(&self) -> Seq<u64> {
        seq![*self]
    }

    open spec fn growable(&self) -> bool {
        false
    }

    fn plen(&self) -> (n: usize) {
        1
    }

    fn pluralize(&self) -> (it: JankIter) {
        JankIter::new(1)
    }

    fn pluralize_mut(&mut self) -> (it: JankIterMut) {
        JankIterMut::new(1)
    }

    fn pget(&self, i: usize) -> (r: &u64) {
        self
    }

    fn pset(&mut self, i: usize, v: u64) {
        *self = v;
        proof {
            assert(self.pview() =~= old(self).pview().update(i as int, v));
        }
    }

    fn is_growable(&self) -> (b: bool) {
        false
    }

    fn grow(&mut self, v: u64) -> (grew: bool) {
        false
    }

    fn shrink(&mut self, i: usize) -> (shrank: bool) {
        false
    }
}

impl Pluralize<i32> for i32 {
    open spec fn pview(&self) -> Seq<i32> {
        seq![*self]
    }

    open spec fn growable(&self) -> bool {
        false
    }

    fn plen(&self) -> (n: usize) {
        1
    }

    fn pluralize(&self) -> (it: JankIter) {
        JankIter::new(1)
    }

    fn pluralize_mut(&mut self) -> (it: JankIterMut) {
        JankIterMut::new(1)
    }

    fn pget(&self, i: usize) -> (r: &i32) {
        self
    }

    fn pset(&mut self, i: usize, v: i32) {
        *self = v;
        proof {
            assert(self.pview() =~= old(self).pview().update(i as int, v));
        }
    }

    fn is_growable(&self) -> (b: bool) {
        false
    }

    fn grow(&mut self, v: i32) -> (grew: bool) {
        false
    }

    fn shrink(&mut self, i: usize) -> (shrank: bool) {
        false
    }
}

impl Pluralize<bool> for bool {
    open spec fn pview(&self) -> Seq<bool> {
        seq![*self]
    }

    open spec fn growable(&self) -> bool {
        false
    }

    fn plen(&self) -> (n: usize) {
        1
    }

    fn pluralize(&self) -> (it: JankIter) {
        JankIter::new(1)
    }

    fn pluralize_mut(&mut self) -> (it: JankIterMut) {
        JankIterMut::new(1)
    }

    fn pget(&self, i: usize) -> (r: &bool) {
        self
    }

    fn pset(&mut self, i: usize, v: bool) {
        *self = v;
        proof {
            assert(self.pview() =~= old(self).pview().update(i as int, v));
        }
    }

    fn is_growable(&self) -> (b: bool) {
        false
    }

    fn grow(&mut self, v: bool) -> (grew: bool) {
        false
    }

    fn shrink(&mut self, i: usize) -> (shrank: bool) {
        false
    }
}

/// Law: the uniform view of a bare element holds exactly one element, equal
/// to the element itself; and updating that sole position is exactly what a
/// later view of the updated element observes.
pub proof fn lemma_single_view<T>(x: T, v: T)
    ensures
        Plural::Single(x).pview().len() == 1,
        Plural::Single(x).pview()[0] == x,
        !Plural::Single(x).growable(),
        Plural::Single(x).pview().update(0, v) =~= Plural::Single(v).pview(),
{
}

/// Law: the uniform view of a sequence of `n` elements holds exactly those
/// `n` elements, in their original order.
pub proof fn lemma_many_view<T>(v: Vec<T>)
    ensures
        Plural::Many(v).pview() == v@,
        Plural::Many(v).pview().len() == v@.len(),
        forall|i: int| 0 <= i < v@.len() ==> Plural::Many(v).pview()[i] == v@[i],
        Plural::Many(v).growable(),
{
}

} // verus!
