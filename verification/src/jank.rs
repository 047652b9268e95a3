use vstd::prelude::*;

verus! {

/// A read-only forward walk over the index range `[pos, end)` of a plural's
/// logical elements. The indices it hands out are meant for
/// [`crate::Pluralize::pget`].
pub struct JankIter {
    /// The next index the walk will hand out.
    pub pos: usize,
    /// One past the last index of the walk.
    pub end: usize,
}

/// An exclusive forward walk over the index range `[pos, end)` of a plural's
/// logical elements. The indices it hands out are meant for
/// [`crate::Pluralize::pget`] and [`crate::Pluralize::pset`].
pub struct JankIterMut {
    /// The next index the walk will hand out.
    pub pos: usize,
    /// One past the last index of the walk.
    pub end: usize,
}

impl JankIter {
    /// A walk that starts at index 0 and ends just before `end`.
    pub fn new(end: usize) -> (it: JankIter)
        ensures
            it.pos == 0,
            it.end == end,
    {
        JankIter { pos: 0, end }
    }

    /// Hands out the next index of the range and advances, or reports that the
    /// walk is exhausted.
    pub fn next_index(&mut self) -> (r: Option<usize>)
        ensures
            old(self).pos < old(self).end ==> r == Some(old(self).pos)
                && final(self).pos == old(self).pos + 1
                && final(self).end == old(self).end,
            old(self).pos >= old(self).end ==> r is None && *final(self) == *old(self),
    {
        if self.pos < self.end {
            let i = self.pos;
            self.pos = self.pos + 1;
            Some(i)
        } else {
            None
        }
    }
}

impl JankIterMut {
    /// A walk that starts at index 0 and ends just before `end`.
    pub fn new(end: usize) -> (it: JankIterMut)
        ensures
            it.pos == 0,
            it.end == end,
    {
        JankIterMut { pos: 0, end }
    }

    /// Hands out the next index of the range and advances, or reports that the
    /// walk is exhausted.
    pub fn next_index(&mut self) -> (r: Option<usize>)
        ensures
            old(self).pos < old(self).end ==> r == Some(old(self).pos)
                && final(self).pos == old(self).pos + 1
                && final(self).end == old(self).end,
            old(self).pos >= old(self).end ==> r is None && *final(self) == *old(self),
    {
        if self.pos < self.end {
            let i = self.pos;
            self.pos = self.pos + 1;
            Some(i)
        } else {
            None
        }
    }
}

} // verus!
