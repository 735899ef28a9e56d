//! The normalization of a point cloud in exact arithmetic.
//!
//! Each axis of the cloud is rescaled on its own, from the span between its
//! least and its greatest coordinate to the span of the canvas less a margin
//! on either side. This module states the rescaling over the real numbers
//! and proves that a cloud with some extent on an axis ends up inside the
//! margins, with each point on a pixel of the canvas. The program computes
//! the same formula in floating point, where each step is rounded, and it
//! does so for a cloud without extent too, which this statement leaves out:
//! there the formula divides zero by zero.

use vstd::prelude::*;
use crate::sigma::{greater, lesser};

verus! {

/// The margin that is kept between the cloud and the edges of the canvas,
/// in pixels.
pub open spec fn margin() -> real {
    5real
}

/// The least coordinate of a cloud that is not empty.
pub open spec fn least(s: Seq<real>) -> real
    decreases s.len(),
{
    if s.len() <= 1 {
        s[0]
    } else {
        lesser(least(s.drop_last()), s.last())
    }
}

/// The greatest coordinate of a cloud that is not empty.
pub open spec fn greatest(s: Seq<real>) -> real
    decreases s.len(),
{
    if s.len() <= 1 {
        s[0]
    } else {
        greater(greatest(s.drop_last()), s.last())
    }
}

/// The coordinate `v` of a cloud that spans `lo` to `hi`, rescaled to a
/// canvas of the given extent.
pub open spec fn rescaled(v: real, lo: real, hi: real, extent: real) -> real {
    (extent - 2real * margin()) * (v - lo) / (hi - lo) + margin()
}

/// The coordinates of a cloud on one axis, rescaled to a canvas of the given
/// extent.
pub open spec fn normalized(s: Seq<real>, extent: real) -> Seq<real> {
    Seq::new(s.len(), |i: int| rescaled(s[i], least(s), greatest(s), extent))
}

/// The pixel index `k` is the coordinate `v` truncated toward zero, for a
/// coordinate that is not negative.
pub open spec fn is_pixel_of(k: int, v: real) -> bool {
    k as real <= v < k as real + 1real
}

/// Every coordinate of a cloud lies between its least and its greatest, and
/// both of these occur in the cloud.
pub proof fn lemma_least_and_greatest(s: Seq<real>)
    requires
        s.len() >= 1,
    ensures
        forall|i: int| 0 <= i < s.len() ==> least(s) <= #[trigger] s[i] <= greatest(s),
        exists|i: int| 0 <= i < s.len() && #[trigger] s[i] == least(s),
        exists|i: int| 0 <= i < s.len() && #[trigger] s[i] == greatest(s),
    decreases s.len(),
{
    if s.len() <= 1 {
        assert(s[0] == least(s) && s[0] == greatest(s));
    } else {
        let head = s.drop_last();
        lemma_least_and_greatest(head);
        assert forall|i: int| 0 <= i < s.len() implies least(s) <= #[trigger] s[i] <= greatest(
            s,
        ) by {
            if i < s.len() - 1 {
                assert(s[i] == head[i]);
            }
        }
        let i = choose|i: int| 0 <= i < head.len() && #[trigger] head[i] == least(head);
        let j = choose|j: int| 0 <= j < head.len() && #[trigger] head[j] == greatest(head);
        assert(s[i] == head[i] && s[j] == head[j]);
        let last = s.len() - 1;
        assert(s[last] == s.last());
        if least(s) == s.last() {
            assert(s[last] == least(s));
        } else {
            assert(s[i] == least(s));
        }
        if greatest(s) == s.last() {
            assert(s[last] == greatest(s));
        } else {
            assert(s[j] == greatest(s));
        }
    }
}

/// A coordinate between the ends of a span that is not empty is rescaled to
/// a coordinate between the margins, the ends of the span to the margins
/// themselves.
pub proof fn lemma_rescaled_in_margins(v: real, lo: real, hi: real, extent: real)
    requires
        lo < hi,
        lo <= v <= hi,
        extent >= 2real * margin(),
    ensures
        margin() <= rescaled(v, lo, hi, extent) <= extent - margin(),
        rescaled(lo, lo, hi, extent) == margin(),
        rescaled(hi, lo, hi, extent) == extent - margin(),
{
    let r = extent - 2real * margin();
    let d = hi - lo;
    assert(r * (v - lo) / d >= 0real) by (nonlinear_arith)
        requires
            r >= 0real,
            v - lo >= 0real,
            d > 0real,
    ;
    assert(r * (v - lo) / d <= r) by (nonlinear_arith)
        requires
            r >= 0real,
            v - lo <= d,
            d > 0real,
    ;
    assert(r * (lo - lo) / d == 0real) by (nonlinear_arith)
        requires
            d > 0real,
    ;
    assert(r * (hi - lo) / d == r) by (nonlinear_arith)
        requires
            d == hi - lo,
            d > 0real,
    ;
}

/// Normalization keeps the number of points, and brings every coordinate of
/// a cloud with some extent between the margins of the canvas.
pub proof fn lemma_normalized_in_margins(s: Seq<real>, extent: real)
    requires
        s.len() >= 1,
        least(s) < greatest(s),
        extent >= 2real * margin(),
    ensures
        normalized(s, extent).len() == s.len(),
        forall|i: int|
            0 <= i < s.len() ==> margin() <= #[trigger] normalized(s, extent)[i] <= extent
                - margin(),
{
    lemma_least_and_greatest(s);
    assert forall|i: int| 0 <= i < s.len() implies margin() <= #[trigger] normalized(
        s,
        extent,
    )[i] <= extent - margin() by {
        lemma_rescaled_in_margins(s[i], least(s), greatest(s), extent);
    }
}

/// No point of a cloud with some extent is dropped for its coordinate on
/// that axis: on a canvas of at least 10 pixels, the pixel index of each
/// normalized coordinate lies inside the canvas, 5 pixels or more from
/// either edge.
pub proof fn lemma_normalized_pixel_inside(s: Seq<real>, extent: nat, i: int, k: int)
    requires
        s.len() >= 1,
        least(s) < greatest(s),
        extent >= 10,
        0 <= i < s.len(),
        is_pixel_of(k, normalized(s, extent as real)[i]),
    ensures
        5 <= k <= extent - 5,
        0 <= k < extent,
{
    lemma_normalized_in_margins(s, extent as real);
    let v = normalized(s, extent as real)[i];
    assert(margin() <= v <= extent as real - margin());
}

} // verus!
