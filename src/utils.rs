use vstd::prelude::*;
use vstd::std_specs::cmp::{PartialOrdIs, PartialOrdSpec};

verus! {

/// `a` when `a < b`, else `b`.
pub open spec fn min_of<T: PartialOrd>(a: T, b: T) -> T {
    if a.is_lt(&b) {
        a
    } else {
        b
    }
}

/// `a` when `a > b`, else `b`.
pub open spec fn max_of<T: PartialOrd>(a: T, b: T) -> T {
    if a.is_gt(&b) {
        a
    } else {
        b
    }
}

/// The smaller of two values: `a` when `a < b`, else `b`.
pub fn min<T: PartialOrd>(a: T, b: T) -> (r: T)
    ensures
        T::obeys_partial_cmp_spec() ==> r == min_of(a, b),
{
    if a < b {
        a
    } else {
        b
    }
}

/// The larger of two values: `a` when `a > b`, else `b`.
pub fn max<T: PartialOrd>(a: T, b: T) -> (r: T)
    ensures
        T::obeys_partial_cmp_spec() ==> r == max_of(a, b),
{
    if a > b {
        a
    } else {
        b
    }
}

} // verus!

verus! {

/// Splits `vec` into the part before `index`, the element at `index`, and the part after it,
/// all three borrowed mutably at once.
pub fn split_vec_mut_around<T>(vec: &mut Vec<T>, index: usize) -> ((before, at, after): (
    &mut [T],
    &mut T,
    &mut [T],
))
    requires
        index < old(vec).len(),
    ensures
        before@ == old(vec)@.subrange(0, index as int),
        *at == old(vec)@[index as int],
        after@ == old(vec)@.subrange(index + 1, old(vec)@.len() as int),
        final(vec)@ == final(before)@ + seq![*final(at)] + final(after)@,
{
    let (a, c) = vec.split_at_mut(index);
    let (b, c) = c.split_at_mut(1);
    (a, &mut b[0], c)
}

} // verus!
