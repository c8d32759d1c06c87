//! Laws of the growable array that relate several operations, stated over
//! the same models as the operations' own contracts.
use core::cmp::Ordering;
use vstd::prelude::*;
use vstd::std_specs::cmp::OrdSpec;

use crate::growable::{lex_cmp, push_capacity};

verus! {

/// Contents after pushing each element of `vs`, in order, onto contents `s`.
pub open spec fn pushes<T>(s: Seq<T>, vs: Seq<T>) -> Seq<T>
    decreases vs.len(),
{
    if vs.len() == 0 {
        s
    } else {
        pushes(s.push(vs[0]), vs.drop_first())
    }
}

/// What `n` successive pops return, starting from contents `s`.
pub open spec fn pops<T>(s: Seq<T>, n: nat) -> Seq<Option<T>>
    decreases n,
{
    if n == 0 {
        Seq::empty()
    } else if s.len() == 0 {
        seq![None].add(pops(s, (n - 1) as nat))
    } else {
        seq![Some(s.last())].add(pops(s.drop_last(), (n - 1) as nat))
    }
}

/// Pushing appends: pushing `vs` onto `s` gives `s` followed by `vs`.
pub proof fn lemma_pushes_append<T>(s: Seq<T>, vs: Seq<T>)
    ensures
        pushes(s, vs) == s + vs,
    decreases vs.len(),
{
    if vs.len() > 0 {
        lemma_pushes_append(s.push(vs[0]), vs.drop_first());
        assert(s.push(vs[0]) + vs.drop_first() =~= s + vs);
    } else {
        assert(s + vs =~= s);
    }
}

/// After pushing `n` values onto an empty array, its length is `n` and the
/// element at each position `i < n` is the `i`-th value pushed.
pub proof fn lemma_push_then_read<T>(vs: Seq<T>)
    ensures
        pushes(Seq::empty(), vs).len() == vs.len(),
        forall|i: int| 0 <= i < vs.len() ==> #[trigger] pushes(Seq::empty(), vs)[i] == vs[i],
{
    lemma_pushes_append(Seq::<T>::empty(), vs);
    assert(Seq::<T>::empty() + vs =~= vs);
}

/// Popping from contents `s`, `s.len() + k` times, returns the elements of
/// `s` from last to first and then `None` each time.
proof fn lemma_pops_from<T>(s: Seq<T>, k: nat)
    ensures
        pops(s, s.len() + k).len() == s.len() + k,
        forall|i: int| 0 <= i < s.len() ==> #[trigger] pops(s, s.len() + k)[i] == Some(s[s.len() - 1 - i]),
        forall|i: int| s.len() <= i < s.len() + k ==> #[trigger] pops(s, s.len() + k)[i] is None,
    decreases s.len(), k,
{
    if s.len() == 0 {
        if k > 0 {
            lemma_pops_from(s, (k - 1) as nat);
        }
    } else {
        let d = s.drop_last();
        lemma_pops_from(d, k);
        assert(d.len() + k == (s.len() + k - 1) as nat);
        let p = pops(s, s.len() + k);
        assert(p == seq![Some(s.last())].add(pops(d, d.len() + k)));
        assert forall|i: int| 0 <= i < s.len() implies #[trigger] p[i] == Some(s[s.len() - 1 - i]) by {
            if i > 0 {
                assert(p[i] == pops(d, d.len() + k)[i - 1]);
            }
        }
    }
}

/// Pushing `v1..vn` onto an empty array and then popping `n + 1` times
/// returns `vn..v1`, in that order, and then `None`.
pub proof fn lemma_pop_reverses_push<T>(vs: Seq<T>)
    ensures
        pops(pushes(Seq::empty(), vs), vs.len() + 1).len() == vs.len() + 1,
        forall|i: int|
            0 <= i < vs.len() ==> #[trigger] pops(pushes(Seq::empty(), vs), vs.len() + 1)[i]
                == Some(vs[vs.len() - 1 - i]),
        pops(pushes(Seq::empty(), vs), vs.len() + 1)[vs.len() as int] is None,
{
    lemma_push_then_read(vs);
    let s = pushes(Seq::<T>::empty(), vs);
    assert(s =~= vs);
    lemma_pops_from(s, 1);
}

/// Capacity never shrinks on a push; it becomes `1` from `0`, and doubles
/// when the push finds every slot taken; afterwards there is room for the
/// new element.
pub proof fn lemma_push_capacity_growth(cap: nat, len: nat)
    requires
        len <= cap,
    ensures
        push_capacity(cap, len) >= cap,
        push_capacity(cap, len) > len,
        cap == 0 ==> push_capacity(cap, len) == 1,
        0 < cap && len == cap ==> push_capacity(cap, len) == 2 * cap,
        len < cap ==> push_capacity(cap, len) == cap,
{
}

/// Two equal sequences compare as equal, for an element order in which
/// every element equals itself.
pub proof fn lemma_compare_equal<T: Ord>(a: Seq<T>)
    requires
        forall|x: T| #[trigger] x.cmp_spec(&x) == Ordering::Equal,
    ensures
        lex_cmp(a, a) == Ordering::Equal,
    decreases a.len(),
{
    if a.len() > 0 {
        assert(a[0].cmp_spec(&a[0]) == Ordering::Equal);
        lemma_compare_equal(a.drop_first());
    }
}

/// Two sequences that agree before position `k` and whose elements at `k`
/// are not equal in the element order compare as those two elements do,
/// for an element order in which every element equals itself.
pub proof fn lemma_compare_first_difference<T: Ord>(a: Seq<T>, b: Seq<T>, k: int)
    requires
        forall|x: T| #[trigger] x.cmp_spec(&x) == Ordering::Equal,
        0 <= k < a.len(),
        k < b.len(),
        a.take(k) == b.take(k),
        a[k].cmp_spec(&b[k]) != Ordering::Equal,
    ensures
        lex_cmp(a, b) == a[k].cmp_spec(&b[k]),
    decreases k,
{
    if k > 0 {
        assert(a.take(k)[0] == a[0]);
        assert(b.take(k)[0] == b[0]);
        assert(a[0].cmp_spec(&b[0]) == Ordering::Equal);
        assert(a.drop_first().take(k - 1) =~= a.take(k).drop_first());
        assert(b.drop_first().take(k - 1) =~= b.take(k).drop_first());
        lemma_compare_first_difference(a.drop_first(), b.drop_first(), k - 1);
    }
}

} // verus!
