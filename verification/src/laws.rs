//! The laws that hold of every view, stated over the model and proved once
//! and for all.

use vstd::prelude::*;

use crate::UncookedSlice;

verus! {

/// Round-trip addressing: through a view whose window lies inside the
/// buffer, the element at offset `i` of the view is the buffer's
/// `(base + i)`-th stored value.  For a view covering a whole buffer of
/// length `L` (`base == 0`, `count == L`) this says that reading at `i`
/// yields the buffer's `i`-th value, for every `i` in `[0, L)`.
pub proof fn lemma_round_trip_addressing<T>(v: UncookedSlice, mem: Seq<T>, i: int)
    requires
        v.in_bounds(mem),
        0 <= i < v.count,
    ensures
        v.sees(mem)[i] == mem[v.base + i],
{
}

/// Write-through: after storing `x` at offset `i` of view `a`, reading the
/// same offset back through `a` yields `x`, and so does reading through any
/// other view `b` that aliases the same buffer element — writes are visible
/// through every view over the region, because all of them address the one
/// shared buffer.
pub proof fn lemma_write_through<T>(
    a: UncookedSlice,
    b: UncookedSlice,
    mem: Seq<T>,
    i: int,
    j: int,
    x: T,
)
    requires
        a.in_bounds(mem),
        b.in_bounds(mem),
        0 <= i < a.count,
        0 <= j < b.count,
        a.base + i == b.base + j,
    ensures
        a.sees(mem.update(a.base + i, x))[i] == x,
        b.sees(mem.update(a.base + i, x))[j] == x,
{
}

/// Iteration order: a non-exhausted view sees its first element — the
/// buffer's element at `base` — followed by exactly what the advanced view
/// (`base + 1`, `count - 1`) sees.  Applied step by step this pins the full
/// yielded sequence of destructive iteration: the elements of the window in
/// buffer order, nothing more and nothing less.
pub proof fn lemma_iteration_step<T>(v: UncookedSlice, w: UncookedSlice, mem: Seq<T>)
    requires
        v.in_bounds(mem),
        v.count > 0,
        w.base == v.base + 1,
        w.count == v.count - 1,
    ensures
        v.sees(mem)[0] == mem[v.base as int],
        v.sees(mem) == seq![mem[v.base as int]] + w.sees(mem),
{
    assert(v.sees(mem) =~= seq![mem[v.base as int]] + w.sees(mem));
}

/// Exhaustion is terminal: a view whose count has reached zero sees the
/// empty run, whatever its base and whatever the buffer holds — iteration
/// on it yields nothing, deterministically, however often it is stepped.
pub proof fn lemma_iteration_exhausted<T>(v: UncookedSlice, mem: Seq<T>)
    requires
        v.in_bounds(mem),
        v.count == 0,
    ensures
        v.sees(mem) == Seq::<T>::empty(),
{
    assert(v.sees(mem) =~= Seq::<T>::empty());
}

/// Value-semantics isolation: a view freshly built from another view's raw
/// base and count is, as a value, that view.  Iteration mutates only the
/// book-keeping of the copy it runs on, so after exhausting any copy, a
/// fresh view over the original pair is still equal to the original,
/// unexhausted view and still spans the original count.
pub proof fn lemma_value_isolation(a: UncookedSlice)
    ensures
        UncookedSlice::spec_new(a.base, a.count) == a,
        UncookedSlice::spec_new(a.base, a.count).count == a.count,
{
}

/// Identity-based equality: two views are equal exactly when they agree on
/// both base and count.  The buffer contents play no part: views differing
/// in base or in count are unequal even where the elements they see are
/// identical.
pub proof fn lemma_identity_equality(a: UncookedSlice, b: UncookedSlice)
    ensures
        (a == b) <==> (a.base == b.base && a.count == b.count),
{
}

/// Representation round-trip: the raw pair read back from a view built
/// from `(base, count)` is exactly the pair that was supplied.
pub proof fn lemma_representation_round_trip(base: usize, count: usize)
    ensures
        UncookedSlice::spec_new(base, count).spec_inner() == (base, count),
{
}

} // verus!
