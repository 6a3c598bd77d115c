//! Operations applied alike to the parallel per-particle columns of the
//! particle containers.
use vstd::prelude::*;

verus! {

/// `s` with the entries at `a` and `b` exchanged.
pub open spec fn swapped<T>(s: Seq<T>, a: int, b: int) -> Seq<T> {
    s.update(a, s[b]).update(b, s[a])
}

/// Every list in `s` holds `n` entries.
pub open spec fn all_len<T>(s: Seq<Seq<T>>, n: int) -> bool {
    forall|k: int| 0 <= k < s.len() ==> #[trigger] s[k].len() == n
}

/// The views of the vectors in `v`.
pub open spec fn views<T>(v: Seq<Vec<T>>) -> Seq<Seq<T>> {
    v.map_values(|x: Vec<T>| x@)
}

/// Each vector of `v` holds `n` entries when each of their views does.
pub proof fn lemma_views_len<T>(v: Seq<Vec<T>>, n: int)
    requires
        all_len(views(v), n),
    ensures
        forall|k: int| 0 <= k < v.len() ==> (#[trigger] v[k])@.len() == n,
{
    assert forall|k: int| 0 <= k < v.len() implies (#[trigger] v[k])@.len() == n by {
        assert(views(v)[k] == v[k]@);
    }
}

/// Exchanges the entries at `a` and `b`.
///
/// Calls `<[T]>::swap` (through `Vec`'s `DerefMut`), which, for indices
/// below the length, exchanges the two entries and leaves all others in place.
#[verifier::external_body]
pub(crate) fn swap_entries<T>(v: &mut Vec<T>, a: usize, b: usize)
    requires
        a < old(v)@.len(),
        b < old(v)@.len(),
    ensures
        final(v)@ == swapped(old(v)@, a as int, b as int),
{
    v.swap(a, b);
}

/// Exchanges the entries at `a` and `b` in every list of `lists`.
pub fn swap_in_each<T>(lists: &mut Vec<Vec<T>>, a: usize, b: usize)
    requires
        forall|k: int| 0 <= k < old(lists)@.len() ==> a < (#[trigger] old(lists)@[k])@.len() && b < old(lists)@[k]@.len(),
    ensures
        final(lists)@.len() == old(lists)@.len(),
        forall|k: int| 0 <= k < old(lists)@.len() ==> (#[trigger] final(lists)@[k])@ == swapped(old(lists)@[k]@, a as int, b as int),
{
    let n = lists.len();
    let mut k: usize = 0;
    while k < n
        invariant
            n == lists@.len(),
            n == old(lists)@.len(),
            k <= n,
            forall|j: int| 0 <= j < k ==> (#[trigger] lists@[j])@ == swapped(old(lists)@[j]@, a as int, b as int),
            forall|j: int| k <= j < n ==> #[trigger] lists@[j] == old(lists)@[j],
            forall|j: int| 0 <= j < n ==> a < (#[trigger] old(lists)@[j])@.len() && b < old(lists)@[j]@.len(),
        decreases n - k,
    {
        let mut list = lists.remove(k);
        swap_entries(&mut list, a, b);
        lists.insert(k, list);
        k = k + 1;
    }
}

/// Cuts every list of `lists` down to its first `n` entries.
pub fn truncate_each<T>(lists: &mut Vec<Vec<T>>, n: usize)
    ensures
        final(lists)@.len() == old(lists)@.len(),
        forall|k: int| 0 <= k < old(lists)@.len() ==> (#[trigger] final(lists)@[k])@ == if n <= old(lists)@[k]@.len() {
            old(lists)@[k]@.subrange(0, n as int)
        } else {
            old(lists)@[k]@
        },
{
    let m = lists.len();
    let mut k: usize = 0;
    while k < m
        invariant
            m == lists@.len(),
            m == old(lists)@.len(),
            k <= m,
            forall|j: int| 0 <= j < k ==> (#[trigger] lists@[j])@ == if n <= old(lists)@[j]@.len() {
                old(lists)@[j]@.subrange(0, n as int)
            } else {
                old(lists)@[j]@
            },
            forall|j: int| k <= j < m ==> #[trigger] lists@[j] == old(lists)@[j],
        decreases m - k,
    {
        let mut list = lists.remove(k);
        list.truncate(n);
        lists.insert(k, list);
        k = k + 1;
    }
}

/// `count` lists, each holding `len` copies of `value`.
pub fn filled_lists<T: Copy>(count: usize, len: usize, value: T) -> (r: Vec<Vec<T>>)
    ensures
        r@.len() == count,
        forall|k: int| 0 <= k < count ==> (#[trigger] r@[k])@ == Seq::new(len as nat, |i: int| value),
{
    let mut r: Vec<Vec<T>> = Vec::new();
    let mut k: usize = 0;
    while k < count
        invariant
            k <= count,
            r@.len() == k,
            forall|j: int| 0 <= j < k ==> (#[trigger] r@[j])@ == Seq::new(len as nat, |i: int| value),
        decreases count - k,
    {
        r.push(filled(len, value));
        k = k + 1;
    }
    r
}

/// A list holding `len` copies of `value`.
pub fn filled<T: Copy>(len: usize, value: T) -> (r: Vec<T>)
    ensures
        r@ == Seq::new(len as nat, |i: int| value),
{
    let mut r: Vec<T> = Vec::new();
    let mut i: usize = 0;
    while i < len
        invariant
            i <= len,
            r@ == Seq::new(i as nat, |j: int| value),
        decreases len - i,
    {
        r.push(value);
        proof {
            assert(r@ =~= Seq::new(i as nat + 1, |j: int| value));
        }
        i = i + 1;
    }
    r
}

} // verus!

verus! {

/// Appends copies of the entries of `src` to `dst`.
pub fn append_copies<T: Copy>(dst: &mut Vec<T>, src: &Vec<T>)
    ensures
        final(dst)@ == old(dst)@ + src@,
{
    let n = src.len();
    let mut j: usize = 0;
    while j < n
        invariant
            n == src@.len(),
            j <= n,
            dst@ == old(dst)@ + src@.take(j as int),
        decreases n - j,
    {
        dst.push(src[j]);
        proof {
            assert(src@.take(j as int + 1) =~= src@.take(j as int).push(src@[j as int]));
        }
        j = j + 1;
    }
    proof {
        assert(src@.take(n as int) =~= src@);
    }
}

/// `count` empty lists.
pub fn empty_lists<T>(count: usize) -> (r: Vec<Vec<T>>)
    ensures
        r@.len() == count,
        forall|k: int| 0 <= k < count ==> (#[trigger] r@[k])@.len() == 0,
{
    let mut r: Vec<Vec<T>> = Vec::new();
    let mut k: usize = 0;
    while k < count
        invariant
            k <= count,
            r@.len() == k,
            forall|j: int| 0 <= j < k ==> (#[trigger] r@[j])@.len() == 0,
        decreases count - k,
    {
        r.push(Vec::new());
        k = k + 1;
    }
    r
}

/// Keeps the first `len` lists and adds empty ones up to `len`.
pub fn resize_lists<T>(lists: &mut Vec<Vec<T>>, len: usize)
    ensures
        final(lists)@.len() == len,
        forall|i: int| 0 <= i < len && i < old(lists)@.len() ==> #[trigger] final(lists)@[i] == old(lists)@[i],
        forall|i: int| old(lists)@.len() <= i < len ==> (#[trigger] final(lists)@[i])@.len() == 0,
{
    if len <= lists.len() {
        lists.truncate(len);
    } else {
        while lists.len() < len
            invariant
                old(lists)@.len() <= lists@.len() <= len,
                forall|i: int| 0 <= i < old(lists)@.len() ==> lists@[i] == old(lists)@[i],
                forall|i: int| old(lists)@.len() <= i < lists@.len() ==> (#[trigger] lists@[i])@.len() == 0,
            decreases len - lists@.len(),
        {
            lists.push(Vec::new());
        }
    }
}

/// Empties every list of `lists`.
pub fn clear_lists<T>(lists: &mut Vec<Vec<T>>)
    ensures
        final(lists)@.len() == old(lists)@.len(),
        forall|i: int| 0 <= i < final(lists)@.len() ==> (#[trigger] final(lists)@[i])@.len() == 0,
{
    let n = lists.len();
    let mut k: usize = 0;
    while k < n
        invariant
            n == lists@.len(),
            k <= n,
            forall|i: int| 0 <= i < k ==> (#[trigger] lists@[i])@.len() == 0,
        decreases n - k,
    {
        lists.set(k, Vec::new());
        k = k + 1;
    }
}

} // verus!

verus! {

/// Copies of the first `k` entries of `src`.
pub fn copy_prefix<T: Copy>(src: &Vec<T>, k: usize) -> (r: Vec<T>)
    requires
        k <= src@.len(),
    ensures
        r@ == src@.take(k as int),
{
    let mut r: Vec<T> = Vec::new();
    let mut j: usize = 0;
    while j < k
        invariant
            k <= src@.len(),
            j <= k,
            r@ == src@.take(j as int),
        decreases k - j,
    {
        r.push(src[j]);
        proof {
            assert(src@.take(j as int + 1) =~= src@.take(j as int).push(src@[j as int]));
        }
        j = j + 1;
    }
    r
}

/// The indices `0, 1, ..., m - 1`.
pub fn index_range(m: usize) -> (r: Vec<usize>)
    ensures
        r@ == Seq::new(m as nat, |j: int| j as usize),
{
    let mut r: Vec<usize> = Vec::new();
    let mut j: usize = 0;
    while j < m
        invariant
            j <= m,
            r@ == Seq::new(j as nat, |i: int| i as usize),
        decreases m - j,
    {
        r.push(j);
        proof {
            assert(r@ =~= Seq::new(j as nat + 1, |i: int| i as usize));
        }
        j = j + 1;
    }
    r
}

} // verus!

verus! {

/// Exchanging the same two entries twice restores the sequence.
pub proof fn lemma_swapped_twice<T>(s: Seq<T>, a: int, b: int)
    requires
        0 <= a < s.len(),
        0 <= b < s.len(),
    ensures
        swapped(swapped(s, a, b), a, b) == s,
{
    assert(swapped(swapped(s, a, b), a, b) =~= s);
}

} // verus!
