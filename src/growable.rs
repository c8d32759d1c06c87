//! The growable array: a live prefix of initialized elements inside a
//! number of reserved slots that grows by doubling.
use core::cmp::Ordering;
use vstd::prelude::*;
use vstd::std_specs::cmp::{OrdSpec, PartialEqSpec};

use crate::layout::{alloc_array, realloc_array};

verus! {

/// Capacity after one push onto an array of capacity `cap` holding `len`
/// elements: unchanged while a slot is free, else from `0` to `1`, and otherwise doubled.
pub open spec fn push_capacity(cap: nat, len: nat) -> nat {
    if len < cap {
        cap
    } else if cap == 0 {
        1
    } else {
        2 * cap
    }
}

/// Capacity after reserving room for `additional` more elements: exactly
/// `len + additional` when the current capacity falls short.
pub open spec fn reserve_capacity(cap: nat, len: nat, additional: nat) -> nat {
    if cap < len + additional {
        len + additional
    } else {
        cap
    }
}

/// Element-wise equality of two sequences, by the elements' `==`.
pub open spec fn seq_eq<T: PartialEq>(a: Seq<T>, b: Seq<T>) -> bool {
    &&& a.len() == b.len()
    &&& forall|i: int| 0 <= i < a.len() ==> #[trigger] a[i].eq_spec(&b[i])
}

/// Lexicographic order of two sequences, by the elements' `cmp`: the first
/// position where the elements differ decides, else the shorter is less.
pub open spec fn lex_cmp<T: Ord>(a: Seq<T>, b: Seq<T>) -> Ordering
    decreases a.len(),
{
    if a.len() == 0 {
        if b.len() == 0 {
            Ordering::Equal
        } else {
            Ordering::Less
        }
    } else if b.len() == 0 {
        Ordering::Greater
    } else {
        match a[0].cmp_spec(&b[0]) {
            Ordering::Equal => lex_cmp(a.drop_first(), b.drop_first()),
            o => o,
        }
    }
}

/// A growable contiguous array of `T`.
///
/// `items` holds the live elements in order; `cap` is the number of element
/// slots reserved for them. Storage is requested only when `cap` slots take
/// memory, so zero-sized elements never cause an allocation.
pub struct GrowableArray<T> {
    items: Vec<T>,
    cap: usize,
}

impl<T> View for GrowableArray<T> {
    type V = Seq<T>;

    closed spec fn view(&self) -> Seq<T> {
        self.items@
    }
}

impl<T> GrowableArray<T> {
    /// Well-formedness: the live elements fit in the reserved slots.
    pub closed spec fn wf(&self) -> bool {
        self.items@.len() <= self.cap
    }

    /// Number of reserved element slots.
    pub closed spec fn spec_capacity(&self) -> nat {
        self.cap as nat
    }

    /// An empty array: no element, no slot, no allocation.
    pub fn new() -> (r: Self)
        ensures
            r.wf(),
            r@ == Seq::<T>::empty(),
            r.spec_capacity() == 0,
    {
        GrowableArray { items: Vec::new(), cap: 0 }
    }

    /// Number of live elements.
    pub fn len(&self) -> (r: usize)
        ensures
            r == self@.len(),
    {
        self.items.len()
    }

    /// Number of reserved element slots.
    pub fn capacity(&self) -> (r: usize)
        ensures
            r == self.spec_capacity(),
    {
        self.cap
    }

    /// Whether the array holds no element.
    pub fn is_empty(&self) -> (r: bool)
        ensures
            r == (self@.len() == 0),
    {
        self.items.len() == 0
    }

    /// The element at position `i`, which must be a live position.
    pub fn index(&self, i: usize) -> (r: &T)
        requires
            i < self@.len(),
        ensures
            *r == self@[i as int],
    {
        &self.items[i]
    }

    /// The element at position `i`, or `None` when `i` is out of range.
    pub fn get(&self, i: usize) -> (r: Option<&T>)
        ensures
            i < self@.len() ==> r == Some(&self@[i as int]),
            i >= self@.len() ==> r is None,
    {
        if i < self.items.len() {
            Some(&self.items[i])
        } else {
            None
        }
    }

    /// The live elements as a slice.
    pub fn as_slice(&self) -> (r: &[T])
        ensures
            r@ == self@,
    {
        self.items.as_slice()
    }

    /// A mutable reference to the element at position `i`, which must be a
    /// live position; writes through it change that element in place.
    pub fn index_mut(&mut self, i: usize) -> (r: &mut T)
        requires
            old(self).wf(),
            i < old(self)@.len(),
        ensures
            *r == old(self)@[i as int],
            final(self)@ == old(self)@.update(i as int, *final(r)),
            final(self).spec_capacity() == old(self).spec_capacity(),
            final(self).wf(),
    {
        &mut self.items[i]
    }

    /// Changes the number of reserved slots to `c`, keeping every element.
    /// Storage is requested from the allocation primitives only when `c`
    /// slots take memory.
    fn grow_to(&mut self, c: usize)
        requires
            old(self).wf(),
            old(self)@.len() <= c,
        ensures
            final(self).wf(),
            final(self)@ == old(self)@,
            final(self).spec_capacity() == c,
    {
        if self.cap == 0 {
            match alloc_array::<T>(c) {
                Some(fresh) => {
                    self.items = fresh;
                },
                None => {},
            }
        } else {
            let _moved = realloc_array(&mut self.items, self.cap, c);
        }
        self.cap = c;
    }

    /// Appends `value` at the end. When every slot is taken the capacity
    /// grows first, from `0` to `1` and otherwise by doubling.
    pub fn push(&mut self, value: T)
        requires
            old(self).wf(),
            push_capacity(old(self).spec_capacity(), old(self)@.len()) <= usize::MAX,
        ensures
            final(self).wf(),
            final(self)@ == old(self)@.push(value),
            final(self).spec_capacity() == push_capacity(
                old(self).spec_capacity(),
                old(self)@.len(),
            ),
    {
        let len: usize = self.items.len();
        if len == self.cap {
            if self.cap == 0 {
                self.grow_to(1);
            } else {
                self.grow_to(2 * self.cap);
            }
        }
        self.items.push(value);
    }

    /// Removes and returns the last element, or `None` when the array is
    /// empty. The capacity is left as it was.
    pub fn pop(&mut self) -> (r: Option<T>)
        requires
            old(self).wf(),
        ensures
            final(self).wf(),
            final(self).spec_capacity() == old(self).spec_capacity(),
            old(self)@.len() == 0 ==> r is None && final(self)@ == old(self)@,
            old(self)@.len() > 0 ==> r == Some(old(self)@.last()) && final(self)@
                == old(self)@.drop_last(),
    {
        self.items.pop()
    }

    /// Makes room for at least `additional` more elements, growing the
    /// capacity to exactly `len + additional` when it falls short.
    pub fn reserve(&mut self, additional: usize)
        requires
            old(self).wf(),
            old(self)@.len() + additional <= usize::MAX,
        ensures
            final(self).wf(),
            final(self)@ == old(self)@,
            final(self).spec_capacity() == reserve_capacity(
                old(self).spec_capacity(),
                old(self)@.len(),
                additional as nat,
            ),
    {
        let want: usize = self.items.len() + additional;
        if self.cap < want {
            self.grow_to(want);
        }
    }

    /// Appends every element of `items`, in order, after reserving room for
    /// all of them at once.
    pub fn extend(&mut self, items: Vec<T>)
        requires
            old(self).wf(),
            old(self)@.len() + items@.len() <= usize::MAX,
        ensures
            final(self).wf(),
            final(self)@ == old(self)@ + items@,
            final(self).spec_capacity() == reserve_capacity(
                old(self).spec_capacity(),
                old(self)@.len(),
                items@.len(),
            ),
    {
        let mut items = items;
        self.reserve(items.len());
        self.items.append(&mut items);
    }

    /// An array holding exactly the elements of `items`, in order.
    pub fn from_vec(items: Vec<T>) -> (r: Self)
        ensures
            r.wf(),
            r@ == items@,
            r.spec_capacity() == items@.len(),
    {
        let mut r = Self::new();
        let n: usize = items.len();
        assert(r@.len() + n <= usize::MAX);
        r.extend(items);
        r
    }

    /// Gives up the array, handing back its elements in order.
    pub fn into_vec(self) -> (r: Vec<T>)
        ensures
            r@ == self@,
    {
        self.items
    }
}

impl<T: PartialEq> GrowableArray<T> {
    /// Whether the live elements equal `other` element by element.
    pub fn equals(&self, other: &[T]) -> (r: bool)
        ensures
            T::obeys_eq_spec() ==> r == seq_eq(self@, other@),
    {
        let n: usize = self.items.len();
        if n != other.len() {
            return false;
        }
        let mut i: usize = 0;
        while i < n
            invariant
                n == self@.len(),
                n == other@.len(),
                i <= n,
                T::obeys_eq_spec() ==> forall|j: int|
                    0 <= j < i ==> #[trigger] self@[j].eq_spec(&other@[j]),
            decreases n - i,
        {
            if !(self.items[i] == other[i]) {
                return false;
            }
            i = i + 1;
        }
        true
    }
}

impl<T: Ord> GrowableArray<T> {
    /// Lexicographic comparison of the live elements with `other`.
    pub fn compare(&self, other: &[T]) -> (r: Ordering)
        ensures
            T::obeys_cmp_spec() ==> r == lex_cmp(self@, other@),
    {
        let n: usize = self.items.len();
        let m: usize = other.len();
        let mut i: usize = 0;
        assert(self@.skip(0) =~= self@);
        assert(other@.skip(0) =~= other@);
        while i < n && i < m
            invariant
                n == self@.len(),
                m == other@.len(),
                i <= n,
                i <= m,
                T::obeys_cmp_spec() ==> lex_cmp(self@, other@) == lex_cmp(
                    self@.skip(i as int),
                    other@.skip(i as int),
                ),
            decreases n - i,
        {
            let o = self.items[i].cmp(&other[i]);
            match o {
                Ordering::Equal => {},
                _ => {
                    return o;
                },
            }
            proof {
                let a = self@.skip(i as int);
                let b = other@.skip(i as int);
                assert(a.drop_first() =~= self@.skip(i + 1));
                assert(b.drop_first() =~= other@.skip(i + 1));
            }
            i = i + 1;
        }
        if i < n {
            Ordering::Greater
        } else if i < m {
            Ordering::Less
        } else {
            Ordering::Equal
        }
    }
}

impl<T> Default for GrowableArray<T> {
    /// An empty array, as [`GrowableArray::new`].
    fn default() -> (r: Self)
        ensures
            r.wf(),
            r@ == Seq::<T>::empty(),
            r.spec_capacity() == 0,
    {
        Self::new()
    }
}

impl<T: PartialEq> PartialEq for GrowableArray<T> {
    fn eq(&self, other: &Self) -> (r: bool) {
        self.equals(other.as_slice())
    }
}

impl<T: PartialEq> vstd::std_specs::cmp::PartialEqSpecImpl for GrowableArray<T> {
    open spec fn obeys_eq_spec() -> bool {
        T::obeys_eq_spec()
    }

    open spec fn eq_spec(&self, other: &Self) -> bool {
        seq_eq(self@, other@)
    }
}

impl<T: Ord> PartialOrd for GrowableArray<T> {
    fn partial_cmp(&self, other: &Self) -> (r: Option<Ordering>) {
        Some(self.compare(other.as_slice()))
    }
}

impl<T: Ord> vstd::std_specs::cmp::PartialOrdSpecImpl for GrowableArray<T> {
    open spec fn obeys_partial_cmp_spec() -> bool {
        T::obeys_cmp_spec()
    }

    open spec fn partial_cmp_spec(&self, other: &Self) -> Option<Ordering> {
        Some(lex_cmp(self@, other@))
    }
}

} // verus!
