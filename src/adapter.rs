//! Conversions from foreign `(pointer, count)` arrays into owned sequences.
//!
//! Each adapter makes one pass and copies everything it needs: nothing it
//! returns refers to the foreign array.
use vstd::prelude::*;

use crate::raw::RawArray;

verus! {

/// The first `n` elements of `v`, copied out.
pub(crate) fn copy_prefix<T: Copy>(v: &Vec<T>, n: usize) -> (r: Vec<T>)
    requires
        n <= v.len(),
    ensures
        r@ == v@.subrange(0, n as int),
{
    let mut out: Vec<T> = Vec::new();
    let mut i: usize = 0;
    while i < n
        invariant
            n <= v.len(),
            i <= n,
            out@ == v@.subrange(0, i as int),
        decreases n - i,
    {
        out.push(v[i]);
        i += 1;
        proof {
            assert(out@ =~= v@.subrange(0, i as int));
        }
    }
    out
}

/// The elements of a foreign array of plain values, copied out.
pub fn get_raw_vec<T: Copy>(raw: &RawArray<T>) -> (r: Vec<T>)
    requires
        raw.wf(),
    ensures
        r@ == raw.elems(),
        raw.count == 0 ==> r@.len() == 0,
{
    match &raw.data {
        None => Vec::new(),
        Some(v) => copy_prefix(v, raw.count as usize),
    }
}

/// The elements of a foreign array, each converted by `convert`.
pub fn get_vec<R, T, F: Fn(&R) -> T>(raw: &RawArray<R>, convert: F) -> (r: Vec<T>)
    requires
        raw.wf(),
        forall|i: int| 0 <= i < raw.elems().len() ==> convert.requires((&raw.elems()[i],)),
    ensures
        r@.len() == raw.elems().len(),
        forall|i: int| 0 <= i < r@.len() ==> convert.ensures((&raw.elems()[i],), #[trigger] r@[i]),
        raw.count == 0 ==> r@.len() == 0,
{
    let mut out: Vec<T> = Vec::new();
    match &raw.data {
        None => {},
        Some(v) => {
            let n = raw.count as usize;
            proof {
                assert forall|j: int| 0 <= j < n implies convert.requires((&v@[j],)) by {
                    assert(raw.elems()[j] == v@[j]);
                }
            }
            let mut i: usize = 0;
            while i < n
                invariant
                    n == raw.count,
                    n <= v.len(),
                    i <= n,
                    raw.data == Some(*v),
                    out@.len() == i,
                    raw.elems() == v@.subrange(0, n as int),
                    forall|j: int| 0 <= j < n ==> convert.requires((&v@[j],)),
                    forall|j: int| 0 <= j < i ==> convert.ensures((&v@[j],), #[trigger] out@[j]),
                decreases n - i,
            {
                proof {
                    assert(raw.elems()[i as int] == v@[i as int]);
                }
                let t = convert(&v[i]);
                out.push(t);
                i += 1;
            }
        },
    }
    out
}

/// A nullable foreign pointer, converted by `convert` when it is not null.
pub fn get_raw<R, T, F: Fn(&R) -> T>(raw: &Option<R>, convert: F) -> (r: Option<T>)
    requires
        raw matches Some(x) ==> convert.requires((&x,)),
    ensures
        r is Some <==> raw is Some,
        raw matches Some(x) ==> convert.ensures((&x,), r->Some_0),
{
    match raw {
        None => None,
        Some(x) => Some(convert(x)),
    }
}

/// A fixed array of nullable pointers, each to `len` plain values: the
/// channels, kept in place, with `None` for an absent one.
pub fn get_vec_of_vecs<T: Copy>(slots: &Vec<Option<Vec<T>>>, len: u32) -> (r: Vec<Option<Vec<T>>>)
    requires
        forall|k: int| 0 <= k < slots@.len() ==> (#[trigger] slots@[k] matches Some(v) ==> len <= v.len()),
    ensures
        r@.len() == slots@.len(),
        forall|k: int| 0 <= k < r@.len() ==> (#[trigger] r@[k] is Some <==> slots@[k] is Some),
        forall|k: int| 0 <= k < r@.len() ==> (#[trigger] r@[k] matches Some(c) ==> c@ == slots@[k]->Some_0@.subrange(0, len as int)),
{
    let mut out: Vec<Option<Vec<T>>> = Vec::new();
    let mut k: usize = 0;
    while k < slots.len()
        invariant
            k <= slots@.len(),
            out@.len() == k,
            forall|j: int| 0 <= j < slots@.len() ==> (#[trigger] slots@[j] matches Some(v) ==> len <= v.len()),
            forall|j: int| 0 <= j < k ==> (#[trigger] out@[j] is Some <==> slots@[j] is Some),
            forall|j: int| 0 <= j < k ==> (#[trigger] out@[j] matches Some(c) ==> c@ == slots@[j]->Some_0@.subrange(0, len as int)),
        decreases slots@.len() - k,
    {
        let slot = match &slots[k] {
            None => None,
            Some(v) => Some(copy_prefix(v, len as usize)),
        };
        out.push(slot);
        k += 1;
    }
    out
}

/// The number of elements a foreign array stands for.
pub fn raw_len<T>(a: &RawArray<T>) -> (r: usize)
    requires
        a.wf(),
    ensures
        r == a.elems().len(),
{
    match &a.data {
        None => 0,
        Some(_) => a.count as usize,
    }
}

/// The `k`-th element of a foreign array.
pub fn raw_at<T>(a: &RawArray<T>, k: usize) -> (r: &T)
    requires
        a.wf(),
        k < a.elems().len(),
    ensures
        *r == a.elems()[k as int],
{
    match &a.data {
        Some(v) => &v[k],
        None => vstd::pervasive::unreached(),
    }
}

/// An array whose count is zero is usable and stands for no elements,
/// whether its pointer is null or not; so every adapter above returns an
/// empty sequence for it.
pub proof fn lemma_zero_count_is_empty<T>(a: RawArray<T>)
    requires
        a.count == 0,
    ensures
        a.wf(),
        a.elems().len() == 0,
{
}

} // verus!
