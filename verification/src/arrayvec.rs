//! `ArrayVec`: a vector that lives in an inline array of fixed capacity.

use vstd::prelude::*;

use crate::text::{format_slice_debug, format_slice_debug_alternate};

verus! {

/// A vector of at most `N` elements, stored inline in an array.
///
/// The first `len` slots of `data` hold the elements; the remaining slots
/// hold filler values that are never observed.
pub struct ArrayVec<T, const N: usize> {
    len: usize,
    data: [T; N],
}

impl<T, const N: usize> View for ArrayVec<T, N> {
    type V = Seq<T>;

    /// The elements currently held, in order.
    closed spec fn view(&self) -> Seq<T> {
        self.data@.subrange(0, self.len as int)
    }
}

impl<T, const N: usize> ArrayVec<T, N> {
    /// The length never exceeds the capacity.
    #[verifier::type_invariant]
    closed spec fn well_formed(self) -> bool {
        self.len <= N
    }

    /// Number of elements held.
    pub fn len(&self) -> (r: usize)
        ensures
            r == self@.len(),
    {
        proof {
            use_type_invariant(self);
        }
        self.len
    }

    /// The fixed capacity `N`.
    pub fn capacity(&self) -> (r: usize)
        ensures
            r == N,
            self@.len() <= N,
    {
        proof {
            use_type_invariant(self);
        }
        N
    }

    /// Whether no element is held.
    pub fn is_empty(&self) -> (r: bool)
        ensures
            r == (self@.len() == 0),
    {
        proof {
            use_type_invariant(self);
        }
        self.len == 0
    }
}

impl<T: Copy + Default, const N: usize> ArrayVec<T, N> {
    /// An empty vector.
    pub fn new() -> (r: Self)
        ensures
            r@ == Seq::<T>::empty(),
    {
        let filler = T::default();
        ArrayVec { len: 0, data: [filler; N] }
    }

    /// Appends `val` at the end. The vector must not be full.
    pub fn push(&mut self, val: T)
        requires
            old(self)@.len() < N,
        ensures
            final(self)@ == old(self)@.push(val),
    {
        proof {
            use_type_invariant(&*self);
        }
        let i = self.len;
        self.data[i] = val;
        self.len = i + 1;
        assert(self@ =~= old(self)@.push(val));
    }
}

impl<T: Copy, const N: usize> ArrayVec<T, N> {
    /// Removes and returns the last element, or `None` when empty.
    pub fn pop(&mut self) -> (r: Option<T>)
        ensures
            old(self)@.len() == 0 ==> r is None && final(self)@ == old(self)@,
            old(self)@.len() > 0 ==> r == Some(old(self)@.last()) && final(self)@
                == old(self)@.drop_last(),
    {
        proof {
            use_type_invariant(&*self);
        }
        if self.len == 0 {
            None
        } else {
            let last = self.len - 1;
            self.len = last;
            assert(self@ =~= old(self)@.drop_last());
            Some(self.data[last])
        }
    }

    /// Removes the element at `index`, shifting the later ones down by one
    /// place, and returns it. `index` must be below the length.
    pub fn remove(&mut self, index: usize) -> (r: T)
        requires
            index < old(self)@.len(),
        ensures
            r == old(self)@[index as int],
            final(self)@ == old(self)@.remove(index as int),
    {
        proof {
            use_type_invariant(&*self);
        }
        let ghost d = self.data@;
        let old_len = self.len;
        let removed = self.data[index];
        let mut j = index + 1;
        while j < old_len
            invariant
                index < j <= old_len <= N,
                self.len == old_len,
                forall|k: int| 0 <= k < index ==> #[trigger] self.data@[k] == d[k],
                forall|k: int| index <= k < j - 1 ==> #[trigger] self.data@[k] == d[k + 1],
                forall|k: int| j <= k < N ==> #[trigger] self.data@[k] == d[k],
            decreases old_len - j,
        {
            let moved = self.data[j];
            self.data[j - 1] = moved;
            j = j + 1;
        }
        self.len = old_len - 1;
        assert(self@ =~= old(self)@.remove(index as int));
        removed
    }

    /// Removes the element at `index` and returns it; the last element takes
    /// its place. `index` must be below the length.
    pub fn swap_remove(&mut self, index: usize) -> (r: T)
        requires
            index < old(self)@.len(),
        ensures
            r == old(self)@[index as int],
            final(self)@ == swap_removed(old(self)@, index as int),
    {
        proof {
            use_type_invariant(&*self);
        }
        if index == self.len - 1 {
            self.pop().unwrap()
        } else {
            let last = self.pop().unwrap();
            proof {
                use_type_invariant(&*self);
                assert(self@.len() == self.len);
                assert(self@[index as int] == self.data@[index as int]);
                assert(self@[index as int] == old(self)@[index as int]);
            }
            let ghost mid = self@;
            let r = self.data[index];
            self.data[index] = last;
            assert(self@ =~= mid.update(index as int, last));
            assert(self@ =~= swap_removed(old(self)@, index as int));
            r
        }
    }

    /// Removes the elements whose positions lie between the two bounds and
    /// returns them in order; the later elements move down to close the gap.
    /// The bounds must resolve to `start <= end <= len`.
    pub fn drain(&mut self, start: Bound, end: Bound) -> (drained: Vec<T>)
        requires
            start_index(start) <= end_index(end, old(self)@.len()) <= old(self)@.len(),
        ensures
            drained@ == old(self)@.subrange(start_index(start), end_index(end, old(self)@.len())),
            final(self)@ == old(self)@.subrange(0, start_index(start)) + old(self)@.subrange(
                end_index(end, old(self)@.len()),
                old(self)@.len() as int,
            ),
    {
        proof {
            use_type_invariant(&*self);
        }
        let s: usize = match start {
            Bound::Included(x) => x,
            Bound::Excluded(x) => x.saturating_add(1),
            Bound::Unbounded => 0,
        };
        let e: usize = match end {
            Bound::Included(x) => x.saturating_add(1),
            Bound::Excluded(x) => x,
            Bound::Unbounded => self.len,
        };
        let ghost d = self.data@;
        let old_len = self.len;
        let mut drained: Vec<T> = Vec::new();
        let mut i = s;
        while i < e
            invariant
                s <= i <= e <= old_len <= N,
                self.data@ == d,
                drained@ == d.subrange(s as int, i as int),
            decreases e - i,
        {
            drained.push(self.data[i]);
            i = i + 1;
            assert(drained@ =~= d.subrange(s as int, i as int));
        }
        let count = e - s;
        let mut j = e;
        while j < old_len
            invariant
                s <= e <= j <= old_len <= N,
                count == e - s,
                self.len == old_len,
                forall|k: int| 0 <= k < s ==> #[trigger] self.data@[k] == d[k],
                forall|k: int| s <= k < j - count ==> #[trigger] self.data@[k] == d[k + count],
                forall|k: int| j <= k < N ==> #[trigger] self.data@[k] == d[k],
            decreases old_len - j,
        {
            let moved = self.data[j];
            self.data[j - count] = moved;
            j = j + 1;
        }
        self.len = old_len - count;
        assert(self@ =~= old(self)@.subrange(0, s as int) + old(self)@.subrange(
            e as int,
            old_len as int,
        ));
        drained
    }

    /// The elements, as a slice.
    pub fn as_slice(&self) -> (r: &[T])
        ensures
            r@ == self@,
    {
        proof {
            use_type_invariant(self);
        }
        vstd::slice::slice_subrange(self.data.as_slice(), 0, self.len)
    }

    /// A copy of the elements, in order.
    pub fn to_vec(&self) -> (r: Vec<T>)
        ensures
            r@ == self@,
    {
        vstd::slice::slice_to_vec(self.as_slice())
    }
}

impl<const N: usize> ArrayVec<i32, N> {
    /// The `{:?}` text of the vector: that of the slice of its elements.
    pub fn debug_string(&self) -> (r: String)
        ensures
            r@ == crate::text::slice_debug(self@),
    {
        format_slice_debug(self.as_slice())
    }

    /// The `{:#?}` text of the vector: that of the slice of its elements.
    pub fn debug_string_alternate(&self) -> (r: String)
        ensures
            r@ == crate::text::slice_debug_alternate(self@),
    {
        format_slice_debug_alternate(self.as_slice())
    }
}

/// One end of a range of positions, as `std::ops::Bound` describes it.
pub enum Bound {
    Included(usize),
    Excluded(usize),
    Unbounded,
}

/// `x + 1`, held at `usize::MAX`.
pub open spec fn saturating_succ(x: usize) -> int {
    if x == usize::MAX {
        x as int
    } else {
        x + 1
    }
}

/// The first position that a start bound admits.
pub open spec fn start_index(b: Bound) -> int {
    match b {
        Bound::Included(x) => x as int,
        Bound::Excluded(x) => saturating_succ(x),
        Bound::Unbounded => 0,
    }
}

/// The position just past the last one that an end bound admits, for a
/// vector of length `len`.
pub open spec fn end_index(b: Bound, len: nat) -> int {
    match b {
        Bound::Included(x) => saturating_succ(x),
        Bound::Excluded(x) => x as int,
        Bound::Unbounded => len as int,
    }
}

/// The elements left after `swap_remove(i)`: the last element moves into
/// slot `i`, and the last slot goes.
pub open spec fn swap_removed<T>(s: Seq<T>, i: int) -> Seq<T> {
    s.update(i, s.last()).drop_last()
}

/// `swap_remove` at the last position removes the last element and leaves
/// the others as they were: it is `pop`.
pub proof fn law_swap_remove_last_is_pop<T>(s: Seq<T>)
    requires
        s.len() > 0,
    ensures
        swap_removed(s, s.len() - 1) == s.drop_last(),
{
    assert(swap_removed(s, s.len() - 1) =~= s.drop_last());
}

/// `swap_remove` below the last position keeps the length less one, puts
/// the last element into the freed slot, and leaves every other element in
/// place.
pub proof fn law_swap_remove_moves_last<T>(s: Seq<T>, i: int)
    requires
        0 <= i < s.len() - 1,
    ensures
        swap_removed(s, i).len() == s.len() - 1,
        swap_removed(s, i)[i] == s.last(),
        forall|k: int| 0 <= k < s.len() - 1 && k != i ==> #[trigger] swap_removed(s, i)[k] == s[k],
{
}

/// An inclusive end bound at `x` admits the same positions as an exclusive
/// end bound at `x + 1`: `a..=x` and `a..x + 1` drain the same elements.
pub proof fn law_inclusive_end_matches_exclusive(x: usize, len: nat)
    requires
        x < usize::MAX,
    ensures
        end_index(Bound::Included(x), len) == end_index(Bound::Excluded((x + 1) as usize), len),
{
}

/// A drain whose end bound is `Unbounded` runs to the end of the vector:
/// from any start position it hands back every element from there on and
/// leaves exactly the ones before it.
pub proof fn law_drain_to_unbounded_end<T>(s: Seq<T>, start: Bound)
    requires
        0 <= start_index(start) <= s.len(),
    ensures
        start_index(start) <= end_index(Bound::Unbounded, s.len()) <= s.len(),
        s.subrange(start_index(start), end_index(Bound::Unbounded, s.len())) == s.skip(
            start_index(start),
        ),
        s.subrange(0, start_index(start)) + s.subrange(
            end_index(Bound::Unbounded, s.len()),
            s.len() as int,
        ) == s.take(start_index(start)),
{
    let a = start_index(start);
    assert(s.subrange(a, s.len() as int) =~= s.skip(a));
    assert(s.subrange(0, a) + s.subrange(s.len() as int, s.len() as int) =~= s.take(a));
}

/// A drain whose start bound is `Unbounded` begins at the first element: up
/// to any end position it hands back the elements before that end and leaves
/// the ones from there on.
pub proof fn law_drain_from_unbounded_start<T>(s: Seq<T>, end: Bound)
    requires
        0 <= end_index(end, s.len()) <= s.len(),
    ensures
        start_index(Bound::Unbounded) == 0,
        s.subrange(start_index(Bound::Unbounded), end_index(end, s.len())) == s.take(
            end_index(end, s.len()),
        ),
        s.subrange(0, start_index(Bound::Unbounded)) + s.subrange(
            end_index(end, s.len()),
            s.len() as int,
        ) == s.skip(end_index(end, s.len())),
{
    let e = end_index(end, s.len());
    assert(s.subrange(0, e) =~= s.take(e));
    assert(s.subrange(0, 0) + s.subrange(e, s.len() as int) =~= s.skip(e));
}

/// What `drain` hands back and what it leaves put together in order give
/// back the elements held before: nothing is lost, nothing is reordered.
pub proof fn law_drain_loses_nothing<T>(s: Seq<T>, start: int, end: int)
    requires
        0 <= start <= end <= s.len(),
    ensures
        s.subrange(0, start) + s.subrange(start, end) + s.subrange(end, s.len() as int) == s,
        (s.subrange(0, start) + s.subrange(end, s.len() as int)).len() == s.len() - (end
            - start),
{
    assert(s.subrange(0, start) + s.subrange(start, end) + s.subrange(end, s.len() as int) =~= s);
}

/// `pop` undoes `push`: it hands back the pushed element and leaves the
/// elements held before.
pub proof fn law_pop_undoes_push<T>(s: Seq<T>, v: T)
    ensures
        s.push(v).len() > 0,
        s.push(v).last() == v,
        s.push(v).drop_last() == s,
{
    assert(s.push(v).drop_last() =~= s);
}

/// `remove` keeps the elements before `i` in place and moves each later one
/// down by one position.
pub proof fn law_remove_shifts_down<T>(s: Seq<T>, i: int)
    requires
        0 <= i < s.len(),
    ensures
        s.remove(i).len() == s.len() - 1,
        forall|k: int| 0 <= k < i ==> #[trigger] s.remove(i)[k] == s[k],
        forall|k: int| i <= k < s.len() - 1 ==> #[trigger] s.remove(i)[k] == s[k + 1],
{
}

} // verus!
