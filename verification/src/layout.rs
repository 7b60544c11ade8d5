//! How an axis shares its extent among its children.
//!
//! Every child of an axis carries a flex weight. A child's share of the
//! axis's extent is its weight over the sum of all weights. Weights are
//! fixed-point numbers: `FLEX_ONE` stands for the weight 1.
//!
//! To place the children without losing or doubling a pixel, the children
//! are cut at the offsets `extent * (w_0 + .. + w_(i-1)) / total`, rounded
//! down: child `i` reaches from the `i`-th offset to the `(i+1)`-th.

use crate::geometry::{Axis, Bounds, Point};
use vstd::arithmetic::div_mod::{
    lemma_div_is_ordered, lemma_div_multiples_vanish, lemma_div_pos_is_pos,
    lemma_fundamental_div_mod, lemma_mod_bound,
};
use vstd::arithmetic::mul::{
    lemma_mul_inequality, lemma_mul_is_commutative, lemma_mul_is_distributive_add,
    lemma_mul_is_distributive_sub_other_way, lemma_mul_nonnegative,
};
use vstd::prelude::*;

verus! {

/// The flex weight 1: the weight every child starts with.
pub const FLEX_ONE: u32 = 65536;

/// The threshold that every flex weight stays strictly above.
pub const MIN_FLEX: u32 = 4096;

/// The sum of the first `n` weights.
pub open spec fn flex_prefix(flexes: Seq<u32>, n: int) -> nat
    decreases n,
{
    if n <= 0 {
        0
    } else {
        flex_prefix(flexes, n - 1) + flexes[n - 1] as nat
    }
}

/// The sum of all weights.
pub open spec fn flex_total(flexes: Seq<u32>) -> nat {
    flex_prefix(flexes, flexes.len() as int)
}

/// Where child `i` begins, measured from the start of an axis that spans
/// `extent` pixels. The offset of index `flexes.len()` is where the last
/// child ends.
#[verifier::opaque]
pub open spec fn child_offset(extent: nat, flexes: Seq<u32>, i: int) -> nat {
    if flex_total(flexes) == 0 {
        0
    } else {
        extent * flex_prefix(flexes, i) / flex_total(flexes)
    }
}

/// The rectangle of child `i` when an axis with the given weights is laid
/// out in `bounds`: its share along the axis, and everything across it.
pub open spec fn child_bounds(bounds: Bounds, axis: Axis, flexes: Seq<u32>, i: int) -> Bounds {
    bounds.spec_slice(
        axis,
        child_offset(bounds.spec_extent(axis), flexes, i) as int,
        child_offset(bounds.spec_extent(axis), flexes, i + 1) as int,
    )
}

/// Every weight lies strictly above the threshold.
pub open spec fn flexes_valid(flexes: Seq<u32>) -> bool {
    forall|i: int| 0 <= i < flexes.len() ==> #[trigger] flexes[i] > MIN_FLEX
}

/// Prefix sums grow with the number of weights summed.
pub proof fn lemma_flex_prefix_monotone(flexes: Seq<u32>, i: int, j: int)
    requires
        0 <= i <= j <= flexes.len(),
    ensures
        flex_prefix(flexes, i) <= flex_prefix(flexes, j),
    decreases j - i,
{
    if i < j {
        lemma_flex_prefix_monotone(flexes, i, j - 1);
    }
}

/// The offsets never step back and never leave the extent.
pub proof fn lemma_child_offset_monotone(extent: nat, flexes: Seq<u32>, i: int, j: int)
    requires
        0 <= i <= j <= flexes.len(),
    ensures
        child_offset(extent, flexes, i) <= child_offset(extent, flexes, j) <= extent,
{
    reveal(child_offset);
    let total = flex_total(flexes);
    if total != 0 {
        lemma_flex_prefix_monotone(flexes, i, j);
        lemma_flex_prefix_monotone(flexes, j, flexes.len() as int);
        let pi = flex_prefix(flexes, i);
        let pj = flex_prefix(flexes, j);
        lemma_mul_inequality(pi as int, pj as int, extent as int);
        lemma_mul_inequality(pj as int, total as int, extent as int);
        lemma_mul_is_commutative(pi as int, extent as int);
        lemma_mul_is_commutative(pj as int, extent as int);
        lemma_mul_is_commutative(total as int, extent as int);
        lemma_div_is_ordered((extent * pi) as int, (extent * pj) as int, total as int);
        lemma_div_is_ordered((extent * pj) as int, (extent * total) as int, total as int);
        lemma_div_multiples_vanish(extent as int, total as int);
        lemma_mul_is_commutative(total as int, extent as int);
    }
}

/// The first child begins where the axis begins, and the last child ends
/// where the axis ends.
pub proof fn lemma_child_offset_ends(extent: nat, flexes: Seq<u32>)
    ensures
        child_offset(extent, flexes, 0) == 0,
        flex_total(flexes) > 0 ==> child_offset(extent, flexes, flexes.len() as int) == extent,
{
    reveal(child_offset);
    let total = flex_total(flexes);
    if total != 0 {
        assert(extent * 0 == 0);
        lemma_div_multiples_vanish(extent as int, total as int);
        lemma_mul_is_commutative(total as int, extent as int);
    }
}

/// Every child gets its share of the extent, its weight over the sum of all
/// weights, to within one pixel.
pub proof fn lemma_child_extent_is_proportional(extent: nat, flexes: Seq<u32>, i: int)
    requires
        0 <= i < flexes.len(),
        flex_total(flexes) > 0,
    ensures
        ({
            let width = child_offset(extent, flexes, i + 1) - child_offset(extent, flexes, i);
            let total = flex_total(flexes);
            &&& width * total > extent * flexes[i] - total
            &&& width * total < extent * flexes[i] + total
        }),
{
    reveal(child_offset);
    let total = flex_total(flexes) as int;
    let before = flex_prefix(flexes, i) as int;
    let after = flex_prefix(flexes, i + 1) as int;
    let weight = flexes[i] as int;
    assert(after == before + weight);
    let e = extent as int;
    lemma_fundamental_div_mod(e * before, total);
    lemma_fundamental_div_mod(e * after, total);
    lemma_mod_bound(e * before, total);
    lemma_mod_bound(e * after, total);
    lemma_mul_is_distributive_add(e, before, weight);
    let low = (e * before) / total;
    let high = (e * after) / total;
    lemma_mul_is_commutative(total, low);
    lemma_mul_is_commutative(total, high);
    lemma_mul_is_distributive_sub_other_way(total, high, low);
}

/// The children of an axis lie side by side inside the axis's rectangle:
/// each begins where the one before it ends, and across the axis each spans
/// what the rectangle spans.
pub proof fn lemma_children_adjoin(bounds: Bounds, axis: Axis, flexes: Seq<u32>, i: int)
    requires
        0 <= i < flexes.len(),
    ensures
        child_bounds(bounds, axis, flexes, i).start(axis) == bounds.start(axis) + child_offset(
            bounds.spec_extent(axis),
            flexes,
            i,
        ),
        child_bounds(bounds, axis, flexes, i).spec_extent(axis) == child_offset(
            bounds.spec_extent(axis),
            flexes,
            i + 1,
        ) - child_offset(bounds.spec_extent(axis), flexes, i),
        i + 1 < flexes.len() ==> child_bounds(bounds, axis, flexes, i + 1).start(axis)
            == child_bounds(bounds, axis, flexes, i).start(axis) + child_bounds(
            bounds,
            axis,
            flexes,
            i,
        ).spec_extent(axis),
{
    let e = bounds.spec_extent(axis);
    lemma_child_offset_monotone(e, flexes, i, i + 1);
    if i + 1 < flexes.len() {
        lemma_child_offset_monotone(e, flexes, i + 1, i + 2);
    }
}

/// No pixel belongs to two children of one axis.
pub proof fn lemma_children_disjoint(
    bounds: Bounds,
    axis: Axis,
    flexes: Seq<u32>,
    i: int,
    j: int,
    p: Point,
)
    requires
        0 <= i < j < flexes.len(),
    ensures
        !(child_bounds(bounds, axis, flexes, i).spec_contains(p) && child_bounds(
            bounds,
            axis,
            flexes,
            j,
        ).spec_contains(p)),
{
    let e = bounds.spec_extent(axis);
    lemma_child_offset_monotone(e, flexes, i, i + 1);
    lemma_child_offset_monotone(e, flexes, i + 1, j);
    lemma_child_offset_monotone(e, flexes, j, j + 1);
}

/// Every pixel of the axis's rectangle belongs to one of its children.
pub proof fn lemma_children_cover(bounds: Bounds, axis: Axis, flexes: Seq<u32>, p: Point) -> (i:
    int)
    requires
        flex_total(flexes) > 0,
        bounds.spec_contains(p),
    ensures
        0 <= i < flexes.len(),
        child_bounds(bounds, axis, flexes, i).spec_contains(p),
{
    let e = bounds.spec_extent(axis);
    lemma_child_offset_ends(e, flexes);
    let d = p.spec_along(axis) - bounds.start(axis);
    assert(0 <= d < e);
    let i = lemma_offset_bracket(e, flexes, d, flexes.len() as int);
    lemma_child_offset_monotone(e, flexes, i, i + 1);
    i
}

/// A distance below the `n`-th offset falls between two neighbouring
/// offsets before it.
proof fn lemma_offset_bracket(extent: nat, flexes: Seq<u32>, d: int, n: int) -> (i: int)
    requires
        0 <= n <= flexes.len(),
        0 <= d < child_offset(extent, flexes, n),
    ensures
        0 <= i < n,
        child_offset(extent, flexes, i) <= d < child_offset(extent, flexes, i + 1),
    decreases n,
{
    lemma_child_offset_ends(extent, flexes);
    if d >= child_offset(extent, flexes, n - 1) {
        n - 1
    } else {
        lemma_offset_bracket(extent, flexes, d, n - 1)
    }
}

/// The sum of all weights.
pub fn total_flex(flexes: &Vec<u32>) -> (total: u128)
    ensures
        total == flex_total(flexes@),
        total <= flexes@.len() * 0xffff_ffff,
{
    let mut total: u128 = 0;
    let mut i: usize = 0;
    while i < flexes.len()
        invariant
            i <= flexes.len(),
            total == flex_prefix(flexes@, i as int),
            total <= i * 0xffff_ffff,
        decreases flexes.len() - i,
    {
        total = total + flexes[i] as u128;
        i += 1;
    }
    total
}

/// The offset `extent * prefix / total`, rounded down; zero where there is
/// no weight to share by.
fn scaled_offset(extent: u32, prefix: u128, total: u128) -> (offset: u32)
    requires
        prefix <= total <= usize::MAX * 0xffff_ffff,
    ensures
        offset == if total == 0 {
            0
        } else {
            (extent as nat) * (prefix as nat) / (total as nat)
        },
{
    if total == 0 {
        return 0;
    }
    proof {
        assert(extent * prefix <= 0xffff_ffff * (0xffff_ffff_ffff_ffff * 0xffff_ffff))
            by (nonlinear_arith)
            requires
                extent <= 0xffff_ffff,
                prefix <= 0xffff_ffff_ffff_ffff * 0xffff_ffff,
        ;
        lemma_mul_inequality(prefix as int, total as int, extent as int);
        lemma_mul_is_commutative(prefix as int, extent as int);
        lemma_mul_is_commutative(total as int, extent as int);
        lemma_div_is_ordered((extent * prefix) as int, (extent * total) as int, total as int);
        lemma_div_multiples_vanish(extent as int, total as int);
    }
    let scaled: u128 = extent as u128 * prefix;
    (scaled / total) as u32
}

/// The rectangles of the children of an axis with the weights `flexes` that
/// is laid out in `bounds`, in the order of the children.
pub fn place_children(bounds: Bounds, axis: Axis, flexes: &Vec<u32>) -> (rectangles: Vec<Bounds>)
    ensures
        rectangles@.len() == flexes@.len(),
        forall|i: int|
            0 <= i < flexes@.len() ==> #[trigger] rectangles@[i] == child_bounds(
                bounds,
                axis,
                flexes@,
                i,
            ),
{
    let count: usize = flexes.len();
    let extent: u32 = bounds.extent(axis);
    let total: u128 = total_flex(flexes);
    let mut rectangles: Vec<Bounds> = Vec::new();
    let mut prefix: u128 = 0;
    let mut start: u32 = 0;
    let mut i: usize = 0;
    proof {
        reveal(child_offset);
        lemma_child_offset_ends(extent as nat, flexes@);
    }
    while i < count
        invariant
            i <= count,
            count == flexes@.len(),
            extent == bounds.spec_extent(axis),
            total == flex_total(flexes@),
            total <= usize::MAX * 0xffff_ffff,
            prefix == flex_prefix(flexes@, i as int),
            start == child_offset(extent as nat, flexes@, i as int),
            rectangles@.len() == i,
            forall|j: int|
                0 <= j < i ==> #[trigger] rectangles@[j] == child_bounds(bounds, axis, flexes@, j),
        decreases count - i,
    {
        proof {
            reveal(child_offset);
            lemma_flex_prefix_monotone(flexes@, i as int + 1, count as int);
            lemma_child_offset_monotone(extent as nat, flexes@, i as int, i as int + 1);
        }
        let next_prefix: u128 = prefix + flexes[i] as u128;
        let end: u32 = scaled_offset(extent, next_prefix, total);
        rectangles.push(bounds.slice(axis, start, end));
        prefix = next_prefix;
        start = end;
        i += 1;
    }
    rectangles
}

/// The weight that a drag of `displacement` pixels moves from one child
/// to its neighbour, before any limit: the same part of the two children's
/// weight as the displacement is of the two children's extent, rounded
/// towards zero. Nothing moves while the two children span no pixel.
pub open spec fn flex_shift(displacement: int, pair_flex: nat, pair_extent: nat) -> int {
    if pair_extent == 0 {
        0
    } else if displacement >= 0 {
        (displacement * pair_flex) / (pair_extent as int)
    } else {
        -(((-displacement) * pair_flex) / (pair_extent as int))
    }
}

/// The shift `shift`, held back so far that, once the first weight has
/// grown by it and the second has shrunk by it, both weights still lie
/// strictly above the threshold and the first fits its type.
pub open spec fn limited_shift(shift: int, first: u32, second: u32) -> int {
    let most = if second - MIN_FLEX - 1 <= u32::MAX - first {
        second - MIN_FLEX - 1
    } else {
        u32::MAX - first
    };
    let least = if first - MIN_FLEX - 1 <= u32::MAX - second {
        -(first - MIN_FLEX - 1)
    } else {
        -(u32::MAX - second)
    };
    if shift > most {
        most
    } else if shift < least {
        least
    } else {
        shift
    }
}

/// The two weights after a drag of `displacement` pixels of the handle
/// between two children that together span `pair_extent` pixels: what the
/// first gains the second loses.
pub open spec fn shifted_pair(first: u32, second: u32, displacement: int, pair_extent: nat) -> (
    u32,
    u32,
) {
    let shift = limited_shift(
        flex_shift(displacement, (first + second) as nat, pair_extent),
        first,
        second,
    );
    ((first + shift) as u32, (second - shift) as u32)
}

/// A drag keeps the sum of the two weights, and keeps both weights
/// strictly above the threshold.
pub proof fn lemma_shifted_pair_valid(first: u32, second: u32, displacement: int, pair_extent: nat)
    requires
        first > MIN_FLEX,
        second > MIN_FLEX,
    ensures
        shifted_pair(first, second, displacement, pair_extent).0 + shifted_pair(
            first,
            second,
            displacement,
            pair_extent,
        ).1 == first + second,
        shifted_pair(first, second, displacement, pair_extent).0 > MIN_FLEX,
        shifted_pair(first, second, displacement, pair_extent).1 > MIN_FLEX,
{
}

/// A drag towards the second child never shrinks the first, and a drag
/// towards the first child never grows it.
pub proof fn lemma_shifted_pair_follows_drag(
    first: u32,
    second: u32,
    displacement: int,
    pair_extent: nat,
)
    requires
        first > MIN_FLEX,
        second > MIN_FLEX,
    ensures
        displacement >= 0 ==> shifted_pair(first, second, displacement, pair_extent).0 >= first,
        displacement <= 0 ==> shifted_pair(first, second, displacement, pair_extent).0 <= first,
{
    let pair_flex = (first + second) as nat;
    if pair_extent != 0 {
        if displacement == 0 {
            assert(displacement * pair_flex == 0);
            assert(0int / (pair_extent as int) == 0);
        } else if displacement >= 0 {
            lemma_mul_nonnegative(displacement, pair_flex as int);
            lemma_div_pos_is_pos(displacement * pair_flex, pair_extent as int);
        } else {
            lemma_mul_nonnegative(-displacement, pair_flex as int);
            lemma_div_pos_is_pos((-displacement) * pair_flex, pair_extent as int);
        }
    }
}

/// The two weights after a drag of `displacement` pixels.
pub fn shift_pair(first: u32, second: u32, displacement: i64, pair_extent: u64) -> (pair: (
    u32,
    u32,
))
    requires
        first > MIN_FLEX,
        second > MIN_FLEX,
    ensures
        pair == shifted_pair(first, second, displacement as int, pair_extent as nat),
{
    if pair_extent == 0 {
        return (first, second);
    }
    let pair_flex: u128 = first as u128 + second as u128;
    let most: u128 = if second - MIN_FLEX - 1 <= u32::MAX - first {
        (second - MIN_FLEX - 1) as u128
    } else {
        (u32::MAX - first) as u128
    };
    let least: u128 = if first - MIN_FLEX - 1 <= u32::MAX - second {
        (first - MIN_FLEX - 1) as u128
    } else {
        (u32::MAX - second) as u128
    };
    if displacement >= 0 {
        let distance: u128 = displacement as u128;
        proof {
            assert(distance * pair_flex <= 0x7fff_ffff_ffff_ffff * 0x1_ffff_fffe) by (nonlinear_arith)
                requires
                    distance <= 0x7fff_ffff_ffff_ffff,
                    pair_flex <= 0x1_ffff_fffe,
            ;
            lemma_mul_nonnegative(distance as int, pair_flex as int);
            lemma_div_pos_is_pos(distance * pair_flex, pair_extent as int);
        }
        let wanted: u128 = distance * pair_flex / (pair_extent as u128);
        let shift: u128 = if wanted > most {
            most
        } else {
            wanted
        };
        ((first as u128 + shift) as u32, (second as u128 - shift) as u32)
    } else {
        let distance: u128 = (-(displacement as i128)) as u128;
        proof {
            assert(distance * pair_flex <= 0x8000_0000_0000_0000 * 0x1_ffff_fffe) by (nonlinear_arith)
                requires
                    distance <= 0x8000_0000_0000_0000,
                    pair_flex <= 0x1_ffff_fffe,
            ;
            lemma_mul_nonnegative(distance as int, pair_flex as int);
            lemma_div_pos_is_pos(distance * pair_flex, pair_extent as int);
        }
        let wanted: u128 = distance * pair_flex / (pair_extent as u128);
        let shift: u128 = if wanted > least {
            least
        } else {
            wanted
        };
        ((first as u128 - shift) as u32, (second as u128 + shift) as u32)
    }
}

} // verus!
