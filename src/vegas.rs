use vstd::prelude::*;

use crate::enums::VegasMode;
use crate::status::{GSLResult, Value};

verus! {

/// `b` raised to the power `e`.
pub open spec fn power(b: nat, e: nat) -> nat
    decreases e,
{
    if e == 0 {
        1
    } else {
        b * power(b, (e - 1) as nat)
    }
}

proof fn lemma_power_positive(b: nat, e: nat)
    requires
        b >= 1,
    ensures
        power(b, e) >= 1,
    decreases e,
{
    if e > 0 {
        lemma_power_positive(b, (e - 1) as nat);
        let p = power(b, (e - 1) as nat);
        assert(b * p >= 1) by (nonlinear_arith)
            requires
                b >= 1,
                p >= 1,
        ;
    }
}

proof fn lemma_power_one(e: nat)
    ensures
        power(1, e) == 1,
    decreases e,
{
    if e > 0 {
        lemma_power_one((e - 1) as nat);
    }
}

/// A larger exponent gives a power at least as large, for a base of at least 1.
proof fn lemma_power_grows_with_exponent(b: nat, e1: nat, e2: nat)
    requires
        b >= 1,
        e1 <= e2,
    ensures
        power(b, e1) <= power(b, e2),
    decreases e2,
{
    if e1 < e2 {
        lemma_power_grows_with_exponent(b, e1, (e2 - 1) as nat);
        let p = power(b, (e2 - 1) as nat);
        assert(p <= b * p) by (nonlinear_arith)
            requires
                b >= 1,
        ;
    }
}

/// A larger base gives a power at least as large.
proof fn lemma_power_grows_with_base(a: nat, b: nat, e: nat)
    requires
        a <= b,
    ensures
        power(a, e) <= power(b, e),
    decreases e,
{
    if e > 0 {
        lemma_power_grows_with_base(a, b, (e - 1) as nat);
        let pa = power(a, (e - 1) as nat);
        let pb = power(b, (e - 1) as nat);
        assert(a * pa <= b * pb) by (nonlinear_arith)
            requires
                a <= b,
                pa <= pb,
        ;
    }
}

/// A base of at least 1 is at most its power, for an exponent of at least 1.
proof fn lemma_power_at_least_base(b: nat, e: nat)
    requires
        b >= 1,
        e >= 1,
    ensures
        b <= power(b, e),
{
    lemma_power_grows_with_exponent(b, 1, e);
    assert(power(b, 0) == 1);
    assert(power(b, 1) == b * power(b, 0));
}

/// `r` boxes along each of `d` axes fit `n` boxes in all: `r` is the largest
/// count whose `d`-th power is at most `n`, and never less than 1.
pub open spec fn is_axis_boxes(r: nat, n: nat, d: nat) -> bool {
    &&& r >= 1
    &&& r == 1 || power(r, d) <= n
    &&& n < power(r + 1, d)
}

/// The number of boxes along each of `d` axes for `n` boxes in all.
pub open spec fn axis_boxes(n: nat, d: nat) -> nat {
    choose|r: nat| is_axis_boxes(r, n, d)
}

proof fn lemma_axis_boxes_unique(r1: nat, r2: nat, n: nat, d: nat)
    requires
        is_axis_boxes(r1, n, d),
        is_axis_boxes(r2, n, d),
    ensures
        r1 == r2,
{
    if r1 < r2 {
        lemma_power_grows_with_base(r1 + 1, r2, d);
    } else if r2 < r1 {
        lemma_power_grows_with_base(r2 + 1, r1, d);
    }
}

/// The box count per axis is the one count that meets its definition.
pub proof fn lemma_axis_boxes_is(r: nat, n: nat, d: nat)
    requires
        is_axis_boxes(r, n, d),
    ensures
        axis_boxes(n, d) == r,
{
    let c = axis_boxes(n, d);
    assert(is_axis_boxes(c, n, d));
    lemma_axis_boxes_unique(r, c, n, d);
}

/// Whether `b` to the power `d` is at most `n`, computed without overflow.
fn power_at_most(b: usize, d: usize, n: usize) -> (r: bool)
    requires
        b >= 1,
    ensures
        r == (power(b as nat, d as nat) <= n),
{
    if n == 0 {
        proof {
            lemma_power_positive(b as nat, d as nat);
        }
        return false;
    }
    let mut acc: usize = 1;
    let mut i: usize = 0;
    while i < d
        invariant
            b >= 1,
            i <= d,
            acc as nat == power(b as nat, i as nat),
            acc <= n,
        decreases d - i,
    {
        if acc > n / b {
            proof {
                assert(acc * b > n) by (nonlinear_arith)
                    requires
                        acc > n / b,
                        b >= 1,
                ;
                assert(power(b as nat, (i + 1) as nat) == b * power(b as nat, i as nat));
                lemma_power_grows_with_exponent(b as nat, (i + 1) as nat, d as nat);
            }
            return false;
        }
        proof {
            assert(acc * b <= n) by (nonlinear_arith)
                requires
                    acc <= n / b,
                    b >= 1,
            ;
        }
        acc = acc * b;
        i = i + 1;
    }
    true
}

/// The number of boxes along each of `d` axes for `n` boxes in all.
fn axis_boxes_of(n: usize, d: usize) -> (r: usize)
    requires
        d >= 1,
        n < usize::MAX,
    ensures
        r as nat == axis_boxes(n as nat, d as nat),
        r >= 1,
        r == 1 || power(r as nat, d as nat) <= n,
        r <= n || r == 1,
{
    proof {
        lemma_power_one(d as nat);
    }
    if n <= 1 {
        proof {
            lemma_power_at_least_base(2, d as nat);
            lemma_axis_boxes_is(1, n as nat, d as nat);
        }
        return 1;
    }
    let mut lo: usize = 1;
    let mut hi: usize = n + 1;
    proof {
        lemma_power_at_least_base((n + 1) as nat, d as nat);
    }
    while hi - lo > 1
        invariant
            d >= 1,
            1 <= lo < hi <= n + 1,
            power(lo as nat, d as nat) <= n,
            n < power(hi as nat, d as nat),
        decreases hi - lo,
    {
        let mid = lo + (hi - lo) / 2;
        if power_at_most(mid, d, n) {
            lo = mid;
        } else {
            hi = mid;
        }
    }
    proof {
        lemma_axis_boxes_is(lo as nat, n as nat, d as nat);
        lemma_power_at_least_base(lo as nat, d as nat);
        assert(is_axis_boxes(lo as nat, n as nat, d as nat));
    }
    lo
}

/// How one iteration samples: the strategy followed, the boxes and grid bins
/// along each axis, and the points drawn in each box.
#[derive(Clone, Copy, Debug, PartialEq, Eq, Structural)]
pub struct SamplingPlan {
    /// The strategy the iteration actually follows.
    pub mode: VegasMode,
    /// Boxes along each axis.
    pub boxes: usize,
    /// Grid bins along each axis.
    pub bins: usize,
    /// Boxes in all: `boxes` to the power of the number of dimensions.
    pub total_boxes: usize,
    /// Points sampled in each box.
    pub calls_per_box: usize,
}

/// Boxes along each axis before any adjustment: half the calls, spread over
/// `dims` axes.
pub open spec fn raw_boxes(dims: nat, calls: nat) -> nat {
    axis_boxes(calls / 2, dims)
}

/// Whether a run falls back to, or asks for, stratified sampling: fewer than
/// 2 bins per box in the importance mode, always in the stratified mode.
pub open spec fn stratifies(mode: VegasMode, bins_max: nat, r: nat) -> bool {
    ||| mode == VegasMode::Stratified
    ||| mode == VegasMode::Importance && bins_max < 2 * r
}

/// The strategy an iteration follows for the requested one.
pub open spec fn effective_mode(mode: VegasMode, dims: nat, bins_max: nat, calls: nat) -> VegasMode {
    if mode == VegasMode::ImportanceOnly {
        VegasMode::ImportanceOnly
    } else if stratifies(mode, bins_max, raw_boxes(dims, calls)) {
        VegasMode::Stratified
    } else {
        VegasMode::Importance
    }
}

/// Boxes that share one bin when stratifying `r` boxes over at most
/// `bins_max` bins.
pub open spec fn boxes_per_bin(r: nat, bins_max: nat) -> nat {
    if r / bins_max >= 1 {
        r / bins_max
    } else {
        1
    }
}

/// Grid bins along each axis.
pub open spec fn plan_bins(mode: VegasMode, dims: nat, bins_max: nat, calls: nat) -> nat {
    let r = raw_boxes(dims, calls);
    if effective_mode(mode, dims, bins_max, calls) == VegasMode::Stratified {
        let b = r / boxes_per_bin(r, bins_max);
        if b < bins_max {
            b
        } else {
            bins_max
        }
    } else {
        bins_max
    }
}

/// Boxes along each axis: one in the importance-only mode, a whole number of
/// boxes for each bin when stratifying.
pub open spec fn plan_boxes(mode: VegasMode, dims: nat, bins_max: nat, calls: nat) -> nat {
    let r = raw_boxes(dims, calls);
    let m = effective_mode(mode, dims, bins_max, calls);
    if m == VegasMode::ImportanceOnly {
        1
    } else if m == VegasMode::Importance {
        r
    } else {
        boxes_per_bin(r, bins_max) * plan_bins(mode, dims, bins_max, calls)
    }
}

/// Points sampled in each box: the calls shared among all boxes, and at least 2.
pub open spec fn plan_calls_per_box(mode: VegasMode, dims: nat, bins_max: nat, calls: nat) -> nat {
    let t = power(plan_boxes(mode, dims, bins_max, calls), dims);
    if calls / t >= 2 {
        calls / t
    } else {
        2
    }
}

impl SamplingPlan {
    /// This plan is the one for the requested mode, dimension count, bins per
    /// axis and calls per iteration.
    pub open spec fn is_plan_for(self, mode: VegasMode, dims: nat, bins_max: nat, calls: nat) -> bool {
        &&& self.mode == effective_mode(mode, dims, bins_max, calls)
        &&& self.boxes as nat == plan_boxes(mode, dims, bins_max, calls)
        &&& self.bins as nat == plan_bins(mode, dims, bins_max, calls)
        &&& self.total_boxes as nat == power(self.boxes as nat, dims)
        &&& self.calls_per_box as nat == plan_calls_per_box(mode, dims, bins_max, calls)
    }

    /// Whether the grid is refined after an iteration of this plan: in every
    /// strategy but stratified sampling.
    pub fn refines_grid(&self) -> (r: bool)
        ensures
            r == (self.mode != VegasMode::Stratified),
    {
        match self.mode {
            VegasMode::Stratified => false,
            _ => true,
        }
    }
}

/// `b` to the power `d`.
fn power_of(b: usize, d: usize) -> (r: usize)
    requires
        b >= 1,
        power(b as nat, d as nat) <= usize::MAX,
    ensures
        r as nat == power(b as nat, d as nat),
{
    let mut acc: usize = 1;
    let mut i: usize = 0;
    while i < d
        invariant
            b >= 1,
            i <= d,
            acc as nat == power(b as nat, i as nat),
            power(b as nat, d as nat) <= usize::MAX,
        decreases d - i,
    {
        proof {
            assert(power(b as nat, (i + 1) as nat) == b * power(b as nat, i as nat));
            lemma_power_grows_with_exponent(b as nat, (i + 1) as nat, d as nat);
            let p = power(b as nat, i as nat);
            assert(acc * b == b * p) by (nonlinear_arith)
                requires
                    acc == p,
            ;
        }
        acc = acc * b;
        i = i + 1;
    }
    acc
}

/// The sampling plan of one iteration for the requested mode, number of
/// dimensions, bins per axis and calls per iteration; `Invalid` when there
/// are no dimensions or no bins.
pub fn plan_sampling(mode: VegasMode, dimensions: usize, bins_per_dimension: usize, calls: usize) -> (r: GSLResult<SamplingPlan>)
    ensures
        r is Err <==> dimensions == 0 || bins_per_dimension == 0,
        r is Err ==> r->Err_0 == Value::Invalid,
        r is Ok ==> r->Ok_0.is_plan_for(mode, dimensions as nat, bins_per_dimension as nat, calls as nat),
{
    if dimensions == 0 || bins_per_dimension == 0 {
        return Err(Value::Invalid);
    }
    let ghost dims = dimensions as nat;
    let ghost bins_max = bins_per_dimension as nat;
    let r = axis_boxes_of(calls / 2, dimensions);
    let effective: VegasMode;
    let boxes: usize;
    let bins: usize;
    if mode == VegasMode::ImportanceOnly {
        effective = VegasMode::ImportanceOnly;
        boxes = 1;
        bins = bins_per_dimension;
    } else if mode == VegasMode::Stratified || bins_per_dimension / 2 < r {
        let per_bin: usize = if r / bins_per_dimension >= 1 {
            r / bins_per_dimension
        } else {
            1
        };
        let b = r / per_bin;
        bins = if b < bins_per_dimension {
            b
        } else {
            bins_per_dimension
        };
        proof {
            assert(per_bin <= r) by (nonlinear_arith)
                requires
                    r >= 1,
                    bins_per_dimension >= 1,
                    per_bin == r / bins_per_dimension || (per_bin == 1 && r / bins_per_dimension < 1),
            ;
            assert(1 <= b && per_bin * b <= r) by (nonlinear_arith)
                requires
                    1 <= per_bin <= r,
                    b == r / per_bin,
            ;
            assert(per_bin * bins <= per_bin * b) by (nonlinear_arith)
                requires
                    bins <= b,
                    per_bin >= 1,
            ;
        }
        effective = VegasMode::Stratified;
        boxes = per_bin * bins;
        proof {
            assert(boxes >= 1) by (nonlinear_arith)
                requires
                    boxes == per_bin * bins,
                    per_bin >= 1,
                    bins >= 1,
            ;
        }
    } else {
        effective = VegasMode::Importance;
        boxes = r;
        bins = bins_per_dimension;
    }
    proof {
        assert(boxes <= r);
        lemma_power_grows_with_base(boxes as nat, r as nat, dims);
        lemma_power_one(dims);
        assert(power(r as nat, dims) <= usize::MAX);
    }
    let total = power_of(boxes, dimensions);
    proof {
        lemma_power_positive(boxes as nat, dims);
    }
    let share = calls / total;
    let calls_per_box: usize = if share >= 2 {
        share
    } else {
        2
    };
    Ok(SamplingPlan { mode: effective, boxes, bins, total_boxes: total, calls_per_box })
}

/// Importance sampling that falls back to stratified sampling is stratified
/// sampling, whenever a run has fewer than 2 bins per box.
pub proof fn lemma_fallback_is_stratified(dims: nat, bins_max: nat, calls: nat)
    requires
        bins_max < 2 * raw_boxes(dims, calls),
    ensures
        effective_mode(VegasMode::Importance, dims, bins_max, calls) == VegasMode::Stratified,
        plan_boxes(VegasMode::Importance, dims, bins_max, calls) == plan_boxes(VegasMode::Stratified, dims, bins_max, calls),
        plan_bins(VegasMode::Importance, dims, bins_max, calls) == plan_bins(VegasMode::Stratified, dims, bins_max, calls),
        plan_calls_per_box(VegasMode::Importance, dims, bins_max, calls) == plan_calls_per_box(VegasMode::Stratified, dims, bins_max, calls),
{
}

/// The number that a box's coordinates spell in base `base`, the last
/// coordinate being the least significant digit.
pub open spec fn box_number(s: Seq<usize>, base: nat) -> nat
    decreases s.len(),
{
    if s.len() == 0 {
        0
    } else {
        box_number(s.drop_last(), base) * base + s.last() as nat
    }
}

/// Every coordinate of a box is below the number of boxes along its axis.
pub open spec fn is_box(s: Seq<usize>, base: nat) -> bool {
    forall|i: int| 0 <= i < s.len() ==> s[i] < base
}

proof fn lemma_box_number_concat(p: Seq<usize>, t: Seq<usize>, base: nat)
    ensures
        box_number(p + t, base) == box_number(p, base) * power(base, t.len()) + box_number(t, base),
    decreases t.len(),
{
    if t.len() == 0 {
        assert(p + t =~= p);
        assert(power(base, 0) == 1);
        assert(box_number(t, base) == 0);
    } else {
        let t1 = t.drop_last();
        assert((p + t).drop_last() =~= p + t1);
        assert((p + t).last() == t.last());
        lemma_box_number_concat(p, t1, base);
        let a = box_number(p, base);
        let q = power(base, t1.len());
        let c = box_number(t1, base);
        let l = t.last() as nat;
        assert(box_number(p + t, base) == box_number(p + t1, base) * base + l);
        assert(box_number(t, base) == c * base + l);
        assert(power(base, t.len()) == base * q);
        assert((a * q + c) * base + l == a * (base * q) + (c * base + l)) by (nonlinear_arith);
    }
}

proof fn lemma_box_number_zeros(t: Seq<usize>, base: nat)
    requires
        forall|i: int| 0 <= i < t.len() ==> t[i] == 0,
    ensures
        box_number(t, base) == 0,
    decreases t.len(),
{
    if t.len() > 0 {
        let t1 = t.drop_last();
        assert(forall|i: int| 0 <= i < t1.len() ==> t1[i] == t[i]);
        lemma_box_number_zeros(t1, base);
        assert(t.last() == 0);
        assert(box_number(t, base) == box_number(t1, base) * base + t.last() as nat);
    }
}

proof fn lemma_box_number_last_box(t: Seq<usize>, base: nat)
    requires
        base >= 1,
        forall|i: int| 0 <= i < t.len() ==> t[i] == base - 1,
    ensures
        box_number(t, base) + 1 == power(base, t.len()),
    decreases t.len(),
{
    if t.len() > 0 {
        let t1 = t.drop_last();
        assert(forall|i: int| 0 <= i < t1.len() ==> t1[i] == t[i]);
        lemma_box_number_last_box(t1, base);
        assert(t.last() == base - 1);
        let c = box_number(t1, base);
        assert((c * base + (base - 1)) + 1 == base * (c + 1)) by (nonlinear_arith);
    }
}

proof fn lemma_box_number_bound(s: Seq<usize>, base: nat)
    requires
        is_box(s, base),
    ensures
        box_number(s, base) < power(base, s.len()),
    decreases s.len(),
{
    if s.len() > 0 {
        let s1 = s.drop_last();
        assert(forall|i: int| 0 <= i < s1.len() ==> s1[i] == s[i]);
        lemma_box_number_bound(s1, base);
        assert(s.last() < base);
        let c = box_number(s1, base);
        let q = power(base, s1.len());
        let l = s.last() as nat;
        assert(c * base + l < base * q) by (nonlinear_arith)
            requires
                c < q,
                l < base,
        ;
    }
}

proof fn lemma_box_number_single(x: usize, base: nat)
    ensures
        box_number(seq![x], base) == x as nat,
{
    assert(seq![x].drop_last() =~= Seq::<usize>::empty());
    assert(seq![x].last() == x);
    assert(seq![x].len() == 1);
    assert(box_number(Seq::<usize>::empty(), base) == 0);
    assert(box_number(seq![x], base) == box_number(seq![x].drop_last(), base) * base + seq![x].last() as nat);
}

/// Moves to the next box in the order of box numbers. Returns false, with
/// every coordinate back at 0, when the box was the last one.
pub fn next_box(b: &mut Vec<usize>, boxes: usize) -> (more: bool)
    requires
        is_box(old(b)@, boxes as nat),
    ensures
        final(b)@.len() == old(b)@.len(),
        is_box(final(b)@, boxes as nat),
        more == (box_number(old(b)@, boxes as nat) + 1 < power(boxes as nat, old(b)@.len())),
        more ==> box_number(final(b)@, boxes as nat) == box_number(old(b)@, boxes as nat) + 1,
        !more ==> forall|i: int| 0 <= i < final(b)@.len() ==> final(b)@[i] == 0,
{
    let ghost old_s = old(b)@;
    let ghost base = boxes as nat;
    let n: usize = b.len();
    let mut j: usize = n;
    while j > 0
        invariant
            j <= n,
            b@.len() == n,
            old_s.len() == n,
            old_s == old(b)@,
            is_box(old_s, base),
            base == boxes as nat,
            forall|k: int| 0 <= k < j ==> b@[k] == old_s[k],
            forall|k: int| j <= k < n ==> b@[k] == 0,
            forall|k: int| j <= k < n ==> old_s[k] == boxes - 1,
        decreases j,
    {
        j = j - 1;
        let x = b[j];
        assert(b@[j as int] == old_s[j as int]);
        assert(x < boxes);
        let ghost before = b@;
        if x + 1 < boxes {
            b.set(j, x + 1);
            proof {
                let p = old_s.subrange(0, j as int);
                let t_old = old_s.subrange(j + 1, n as int);
                let t_new = b@.subrange(j + 1, n as int);
                assert(old_s =~= p + seq![x] + t_old);
                assert(b@ =~= p + seq![(x + 1) as usize] + t_new);
                lemma_box_number_concat(p + seq![x], t_old, base);
                lemma_box_number_concat(p, seq![x], base);
                lemma_box_number_concat(p + seq![(x + 1) as usize], t_new, base);
                lemma_box_number_concat(p, seq![(x + 1) as usize], base);
                lemma_box_number_single(x, base);
                lemma_box_number_single((x + 1) as usize, base);
                lemma_box_number_last_box(t_old, base);
                assert forall|i: int| 0 <= i < t_new.len() implies t_new[i] == 0 by {
                    assert(t_new[i] == b@[j + 1 + i]);
                    assert(b@[j + 1 + i] == before[j + 1 + i]);
                }
                lemma_box_number_zeros(t_new, base);
                let a = box_number(p, base) * power(base, 1) + x;
                let q = power(base, t_old.len());
                assert((a + 1) * q == a * q + q) by (nonlinear_arith);
                assert(is_box(b@, base));
                lemma_box_number_bound(b@, base);
            }
            return true;
        }
        b.set(j, 0);
        assert forall|k: int| j <= k < n implies b@[k] == 0 by {
            if k > j {
                assert(b@[k] == before[k]);
            }
        }
        assert forall|k: int| 0 <= k < j implies b@[k] == old_s[k] by {
            assert(b@[k] == before[k]);
        }
    }
    proof {
        if n > 0 {
            assert(old_s[0] < base);
            lemma_box_number_last_box(old_s, base);
        }
        assert(forall|k: int| 0 <= k < n ==> b@[k] == 0);
    }
    false
}

/// `Invalid` when a grid would have no dimensions or no bins along an axis.
pub fn check_shape(dimensions: usize, bins_per_dimension: usize) -> (r: GSLResult<()>)
    ensures
        r is Ok <==> dimensions >= 1 && bins_per_dimension >= 1,
        r is Err ==> r->Err_0 == Value::Invalid,
{
    if dimensions == 0 || bins_per_dimension == 0 {
        Err(Value::Invalid)
    } else {
        Ok(())
    }
}

/// `Invalid` when a run asks for no iterations.
pub fn check_iterations(iterations: usize) -> (r: GSLResult<()>)
    ensures
        r is Ok <==> iterations >= 1,
        r is Err ==> r->Err_0 == Value::Invalid,
{
    if iterations == 0 {
        Err(Value::Invalid)
    } else {
        Ok(())
    }
}

} // verus!
