//! A minimal, non-owning view over a contiguous run of elements that live in
//! a caller-owned buffer.
//!
//! An [`UncookedSlice`] is nothing but a raw `(base, count)` pair: the offset
//! of the first element inside some buffer, and the number of elements the
//! view spans.  The view never owns, allocates, frees or resizes memory; the
//! buffer itself is handed to every access as an explicit argument, standing
//! in for the address space the pair points into.  Where raw address
//! arithmetic would be unchecked, here every access carries a proof
//! obligation instead: indexed reads and writes require the index to lie in
//! `[0, count)` and the window to lie inside the buffer, and checked
//! variants report an out-of-range index as a defined `None`/`false` result
//! rather than leaving it undefined.
//!
//! Views are plain, freely copyable values.  Equality, ordering and hashing
//! are defined over the `(base, count)` pair alone, never over the buffer
//! contents, so a view can serve as a key meaning "this exact region".
//! Iteration is destructive only of the iterating copy's own book-keeping:
//! each step yields the element at `base` by copy, advances `base` and
//! decrements `count`, and touches neither the buffer nor any other copy of
//! the pair.

use vstd::prelude::*;

pub mod laws;

verus! {

/// A non-owning descriptor of a contiguous region of a buffer: the offset of
/// its first element and the number of elements it spans.
///
/// Two views are equal exactly when they hold the same `(base, count)` pair,
/// irrespective of what the buffer currently stores.  The pair is public:
/// since every access through the view is bounds-proved (or bounds-checked)
/// against the buffer it is given, exposing the raw representation cannot
/// break any invariant of this type.
#[derive(Copy, Clone, PartialEq, Eq, PartialOrd, Ord, Hash, Debug, Structural)]
pub struct UncookedSlice {
    /// Offset of the first element of the view inside the buffer.
    pub base: usize,
    /// Number of elements reachable through the view.
    pub count: usize,
}

impl UncookedSlice {
    /// The view that a given `(base, count)` pair describes.
    pub open spec fn spec_new(base: usize, count: usize) -> UncookedSlice {
        UncookedSlice { base, count }
    }

    /// The raw `(base, count)` pair underlying the view.
    pub open spec fn spec_inner(self) -> (usize, usize) {
        (self.base, self.count)
    }

    /// The window `[base, base + count)` lies inside a buffer of the given
    /// contents: the validity obligation that every unchecked access
    /// requires of its caller.
    pub open spec fn in_bounds<T>(self, mem: Seq<T>) -> bool {
        self.base + self.count <= mem.len()
    }

    /// The run of elements the view spans, as a sequence: the buffer's
    /// elements from `base` up to but excluding `base + count`.
    pub open spec fn sees<T>(self, mem: Seq<T>) -> Seq<T>
        recommends
            self.in_bounds(mem),
    {
        mem.subrange(self.base as int, self.base + self.count)
    }

    /// Builds a view from a raw `(base, count)` pair.
    ///
    /// The pair is stored as given; nothing is checked against any buffer
    /// here.  Whether the region it describes actually lies inside the
    /// buffer later handed to an access is that access's obligation.
    pub fn new(base: usize, count: usize) -> (r: Self)
        ensures
            r == Self::spec_new(base, count),
    {
        UncookedSlice { base, count }
    }

    /// Reads back the raw `(base, count)` pair, exactly as supplied at
    /// construction or by the last retargeting.
    pub fn inner(self) -> (r: (usize, usize))
        ensures
            r == self.spec_inner(),
    {
        (self.base, self.count)
    }

    /// Replaces the raw pair as a unit, re-targeting the view to a new
    /// region.  The same obligations as at construction apply to later
    /// accesses through the new pair.
    pub fn retarget(&mut self, base: usize, count: usize)
        ensures
            *final(self) == Self::spec_new(base, count),
    {
        self.base = base;
        self.count = count;
    }

    /// The number of elements reachable through the view.  This is pure
    /// book-keeping: it says nothing about any buffer.
    pub fn len(self) -> (r: usize)
        ensures
            r == self.count,
    {
        self.count
    }

    /// Indexed read access: a reference to the element at offset `i` of the
    /// view, which is the buffer's element at `base + i`.  The caller must
    /// show that `i` lies in `[0, count)` and that the window lies inside
    /// the buffer; within those bounds the result is exactly the `i`-th
    /// element of the run the view sees.
    pub fn index<'a, T>(&self, mem: &'a Vec<T>, i: usize) -> (r: &'a T)
        requires
            self.in_bounds(mem@),
            i < self.count,
        ensures
            *r == self.sees(mem@)[i as int],
            *r == mem@[self.base + i],
    {
        let n: usize = mem.len();
        assert(self.base + i < n);
        &mem[self.base + i]
    }

    /// Indexed write access: a mutable reference to the element at offset
    /// `i` of the view.  Same addressing and same obligations as a read;
    /// the buffer after the borrow differs from the one before in exactly
    /// the element at `base + i`, which holds whatever the caller wrote
    /// through the reference.  Any other view over the same region reads
    /// that element through the one shared buffer, so the write is visible
    /// through every alias.
    pub fn index_mut<'a, T>(&self, mem: &'a mut Vec<T>, i: usize) -> (r: &'a mut T)
        requires
            self.in_bounds(old(mem)@),
            i < self.count,
        ensures
            *r == old(mem)@[self.base + i],
            final(mem)@ == old(mem)@.update(self.base + i, *final(r)),
    {
        let n: usize = mem.len();
        assert(self.base + i < n);
        &mut mem[self.base + i]
    }

    /// Bounds-checked read: `Some` exactly when `i` lies in `[0, count)`
    /// and the addressed element lies inside the buffer, and then the same
    /// element that [`Self::index`] returns; `None` otherwise, in
    /// particular at `i == count`, one past the last valid element.
    pub fn get<'a, T>(&self, mem: &'a Vec<T>, i: usize) -> (r: Option<&'a T>)
        ensures
            match r {
                Some(v) => i < self.count && self.base + i < mem@.len() && *v == mem@[self.base
                    + i],
                None => i >= self.count || self.base + i >= mem@.len(),
            },
    {
        let n: usize = mem.len();
        if i < self.count && i < n && self.base < n - i {
            Some(&mem[self.base + i])
        } else {
            None
        }
    }

    /// Bounds-checked write: stores `value` at offset `i` of the view and
    /// returns `true` exactly when `i` lies in `[0, count)` and the
    /// addressed element lies inside the buffer; otherwise the buffer is
    /// left untouched and the result is `false`, in particular at
    /// `i == count`, one past the last valid element.
    pub fn try_write<T>(&self, mem: &mut Vec<T>, i: usize, value: T) -> (ok: bool)
        ensures
            ok <==> i < self.count && self.base + i < old(mem)@.len(),
            ok ==> final(mem)@ == old(mem)@.update(self.base + i, value),
            !ok ==> final(mem)@ == old(mem)@,
    {
        let n: usize = mem.len();
        if i < self.count && i < n && self.base < n - i {
            let r = &mut mem[self.base + i];
            *r = value;
            true
        } else {
            false
        }
    }

    /// One step of destructive iteration, on this copy of the view alone.
    ///
    /// With `count == 0` the view is exhausted: the result is `None` and
    /// the view is left exactly as it was, deterministically, however often
    /// the step is repeated.  Otherwise the result is a copy of the element
    /// at `base` — the first element of the run the view sees — and the
    /// view's own book-keeping advances: `base` grows by one, `count`
    /// shrinks by one, so the view now sees the rest of the run.  The
    /// buffer, and every other copy of the original pair, are untouched.
    pub fn next<T: Copy>(&mut self, mem: &Vec<T>) -> (r: Option<T>)
        requires
            old(self).in_bounds(mem@),
        ensures
            final(self).in_bounds(mem@),
            old(self).count == 0 ==> r is None && *final(self) == *old(self),
            old(self).count > 0 ==> r == Some(old(self).sees(mem@)[0]) && final(self).base
                == old(self).base + 1 && final(self).count == old(self).count - 1,
            old(self).count > 0 ==> final(self).sees(mem@) == old(self).sees(mem@).skip(1),
    {
        if self.count == 0 {
            return None;
        }
        let n: usize = mem.len();
        assert(self.base < n);
        let v = mem[self.base];
        self.base = self.base + 1;
        self.count = self.count - 1;
        proof {
            assert(self.sees(mem@) =~= old(self).sees(mem@).skip(1));
        }
        Some(v)
    }

    /// Runs destructive iteration to exhaustion on a copy of the view and
    /// collects the yielded elements: exactly the run the view sees, in
    /// order, each by copy.  The view value this was called on is itself a
    /// copy, so no other copy of the pair is affected.
    pub fn collect<T: Copy>(self, mem: &Vec<T>) -> (r: Vec<T>)
        requires
            self.in_bounds(mem@),
        ensures
            r@ == self.sees(mem@),
    {
        let mut cursor = self;
        let mut out: Vec<T> = Vec::new();
        while cursor.count != 0
            invariant
                cursor.in_bounds(mem@),
                self.in_bounds(mem@),
                out@ + cursor.sees(mem@) == self.sees(mem@),
            decreases cursor.count,
        {
            let ghost prev = cursor;
            match cursor.next(mem) {
                Some(v) => {
                    out.push(v);
                    proof {
                        assert(prev.sees(mem@) =~= seq![v] + cursor.sees(mem@));
                        assert(out@ + cursor.sees(mem@) =~= self.sees(mem@));
                    }
                },
                None => {},
            }
        }
        proof {
            assert(cursor.sees(mem@) =~= Seq::<T>::empty());
            assert(out@ =~= self.sees(mem@));
        }
        out
    }
}

} // verus!
