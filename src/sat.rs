use crate::utils::{max, max_of, min, min_of};
use vstd::prelude::*;
use vstd::std_specs::cmp::{PartialOrdIs, PartialOrdSpec};

verus! {

/// The two kinds of shape that take part in a separating-axis test.
#[derive(Debug, Clone, Copy, PartialEq, Eq, Structural)]
pub enum ShapeType {
    Convex,
    Circle,
}

/// Whether the open intervals `[a[0], a[1]]` and `[b[0], b[1]]` overlap: each starts
/// strictly before the other ends.
pub open spec fn intervals_overlap<T: PartialOrd>(a: [T; 2], b: [T; 2]) -> bool {
    a@[0].is_lt(&b@[1]) && a@[1].is_gt(&b@[0])
}

/// Separation on one axis does not depend on which interval comes first: under an order in
/// which `x < y` holds exactly when `y > x`, two intervals overlap in one order of the
/// arguments exactly when they overlap in the other.
pub proof fn overlap_is_symmetric<T: PartialOrd>(a: [T; 2], b: [T; 2])
    requires
        forall|x: T, y: T|
            #![trigger x.partial_cmp_spec(&y)]
            x.is_lt(&y) <==> y.is_gt(&x),
    ensures
        intervals_overlap(a, b) <==> intervals_overlap(b, a),
{
    let (a0, a1, b0, b1) = (a@[0], a@[1], b@[0], b@[1]);
    assert(a0.is_lt(&b1) <==> b1.is_gt(&a0));
    assert(b0.is_lt(&a1) <==> a1.is_gt(&b0));
}

/// The overlap of two intervals `[lo, hi]`: `None` when they do not overlap (touching
/// ends do not count), else the interval from the larger start to the smaller end.
pub fn calculate_overlap<T: PartialOrd + Copy>(a: &[T; 2], b: &[T; 2]) -> (r: Option<[T; 2]>)
    ensures
        T::obeys_partial_cmp_spec() ==> {
            &&& r.is_some() <==> intervals_overlap(*a, *b)
            &&& r.is_some() ==> r.unwrap()@ == seq![max_of(a@[0], b@[0]), min_of(a@[1], b@[1])]
        },
{
    if a[0] < b[1] && a[1] > b[0] {
        let r = [max(a[0], b[0]), min(a[1], b[1])];
        proof {
            if T::obeys_partial_cmp_spec() {
                assert(r@ =~= seq![max_of(a@[0], b@[0]), min_of(a@[1], b@[1])]);
            }
        }
        Some(r)
    } else {
        None
    }
}

} // verus!
