//! Allocation primitives: the memory layout of an array of `n` elements,
//! and fresh or resized storage for such an array.
use vstd::layout::{align_of, size_of};
use vstd::prelude::*;

verus! {

/// Number of bytes taken by `n` elements of type `T`.
pub open spec fn array_bytes<T>(n: nat) -> nat {
    n * size_of::<T>()
}

/// Size and alignment, in bytes, of a memory region.
#[derive(Clone, Copy, Debug, PartialEq, Eq)]
pub struct ArrayLayout {
    pub size: usize,
    pub align: usize,
}

/// The layout of `[T; n]`: `n * size_of::<T>()` bytes aligned to `align_of::<T>()`.
pub fn array_layout<T>(n: usize) -> (r: ArrayLayout)
    requires
        array_bytes::<T>(n as nat) <= usize::MAX,
    ensures
        r.size as nat == array_bytes::<T>(n as nat),
        r.align as nat == align_of::<T>(),
{
    let elem: usize = core::mem::size_of::<T>();
    let align: usize = core::mem::align_of::<T>();
    assert(n * elem == array_bytes::<T>(n as nat));
    ArrayLayout { size: n * elem, align }
}

/// Whether an array of `n` elements of `T` takes any memory at all: false when
/// `n == 0` or when `T` is zero-sized.
pub fn needs_allocation<T>(n: usize) -> (r: bool)
    ensures
        r == (array_bytes::<T>(n as nat) > 0),
{
    let elem: usize = core::mem::size_of::<T>();
    proof {
        lemma_product_positive(n as nat, elem as nat);
    }
    n != 0 && elem != 0
}

proof fn lemma_product_positive(a: nat, b: nat)
    ensures
        (a * b > 0) == (a > 0 && b > 0),
{
    assert((a * b > 0) == (a > 0 && b > 0)) by (nonlinear_arith);
}

/// Fresh storage for `n` elements, with no element in it yet; `None` when
/// that takes no memory (no allocator call is made then).
///
/// The memory comes from the global allocator; running out of memory aborts
/// the process.
pub fn alloc_array<T>(n: usize) -> (r: Option<Vec<T>>)
    ensures
        r is None <==> array_bytes::<T>(n as nat) == 0,
        r matches Some(v) ==> v@ == Seq::<T>::empty(),
{
    if !needs_allocation::<T>(n) {
        return None;
    }
    Some(Vec::with_capacity(n))
}

/// Moves `storage`, sized for `old_n` elements, to storage for `new_n`
/// elements, keeping every element in it. Returns `false`, with `storage`
/// untouched, when `new_n` elements take no memory: what becomes of the old
/// storage is then the caller's decision. With `old_n == 0` this is a fresh
/// allocation.
pub fn realloc_array<T>(storage: &mut Vec<T>, old_n: usize, new_n: usize) -> (r: bool)
    requires
        old(storage)@.len() <= old_n,
        old(storage)@.len() <= new_n,
    ensures
        r == (array_bytes::<T>(new_n as nat) > 0),
        final(storage)@ == old(storage)@,
{
    if !needs_allocation::<T>(new_n) {
        return false;
    }
    if old_n == 0 {
        *storage = Vec::with_capacity(new_n);
    } else {
        let live: usize = storage.len();
        storage.reserve(new_n - live);
    }
    true
}

} // verus!
