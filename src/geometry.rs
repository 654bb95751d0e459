use vstd::prelude::*;

verus! {

/// How samples are mapped to coordinates.
#[derive(Clone, Copy, Debug, PartialEq, Eq, Structural)]
pub enum Scaling {
    /// One unit of x per sample and one unit of y per unit of value; the
    /// stroke is drawn with `vector-effect="non-scaling-stroke"`.
    IndexUnit,
    /// Both axes are stretched to fill the requested pixel box.
    PixelBox,
}

/// The largest sample, or 0 for an empty series.
pub open spec fn max_of(s: Seq<u32>) -> nat
    decreases s.len(),
{
    if s.len() == 0 {
        0
    } else {
        let m = max_of(s.drop_last());
        if s.last() as nat > m {
            s.last() as nat
        } else {
            m
        }
    }
}

/// The smallest of `start` and the samples.
pub open spec fn min_from(s: Seq<u32>, start: nat) -> nat
    decreases s.len(),
{
    if s.len() == 0 {
        start
    } else {
        let m = min_from(s.drop_last(), start);
        if (s.last() as nat) < m {
            s.last() as nat
        } else {
            m
        }
    }
}

/// The smallest sample, or 0 for an empty series.
pub open spec fn min_of(s: Seq<u32>) -> nat {
    min_from(s, max_of(s))
}

/// A rational coordinate, as numerator and denominator.
pub type Ratio = (nat, nat);

/// The x coordinate of sample `i` in a series of `n` samples.
pub open spec fn x_of(scaling: Scaling, n: nat, width: nat, i: nat) -> Ratio {
    match scaling {
        Scaling::IndexUnit => (i, 1),
        Scaling::PixelBox => (i * width, (n - 1) as nat),
    }
}

/// The y coordinate of sample `i`: the distance below the top of the chart,
/// so that larger samples lie higher.
pub open spec fn y_of(scaling: Scaling, data: Seq<u32>, height: nat, i: int) -> Ratio {
    let top = max_of(data);
    match scaling {
        Scaling::IndexUnit => ((top - data[i]) as nat, 1),
        Scaling::PixelBox => (((top - data[i]) * height) as nat, (top - min_of(data)) as nat),
    }
}

/// The x coordinate at which the filled area returns to the baseline.
pub open spec fn end_x(scaling: Scaling, n: nat, width: nat) -> nat {
    match scaling {
        Scaling::IndexUnit => n,
        Scaling::PixelBox => width,
    }
}

/// The y coordinate of the baseline: the bottom edge of the chart.
pub open spec fn baseline(scaling: Scaling, data: Seq<u32>, height: nat) -> nat {
    match scaling {
        Scaling::IndexUnit => max_of(data),
        Scaling::PixelBox => height,
    }
}

/// The series can be drawn under the scaling: it is not empty and, when
/// stretched to a box, has two samples and two distinct values.
pub open spec fn drawable(data: Seq<u32>, scaling: Scaling) -> bool {
    &&& data.len() > 0
    &&& scaling is PixelBox ==> data.len() >= 2 && max_of(data) > min_of(data)
}

pub proof fn lemma_max_bounds(s: Seq<u32>)
    ensures
        forall|k: int| 0 <= k < s.len() ==> s[k] <= max_of(s),
    decreases s.len(),
{
    if s.len() > 0 {
        lemma_max_bounds(s.drop_last());
        assert forall|k: int| 0 <= k < s.len() implies s[k] <= max_of(s) by {
            if k < s.len() - 1 {
                assert(s[k] == s.drop_last()[k]);
            }
        }
    }
}

pub proof fn lemma_min_bounds(s: Seq<u32>, start: nat)
    ensures
        min_from(s, start) <= start,
        forall|k: int| 0 <= k < s.len() ==> min_from(s, start) <= s[k],
    decreases s.len(),
{
    if s.len() > 0 {
        lemma_min_bounds(s.drop_last(), start);
        assert forall|k: int| 0 <= k < s.len() implies min_from(s, start) <= s[k] by {
            if k < s.len() - 1 {
                assert(s[k] == s.drop_last()[k]);
            }
        }
    }
}

/// The largest and the smallest sample of a series.
pub fn extremes(data: &Vec<u32>) -> (r: (u32, u32))
    ensures
        r.0 == max_of(data@),
        r.1 == min_of(data@),
{
    let mut top: u32 = 0;
    let mut i: usize = 0;
    while i < data.len()
        invariant
            i <= data.len(),
            top == max_of(data@.subrange(0, i as int)),
        decreases data.len() - i,
    {
        assert(data@.subrange(0, i + 1).drop_last() =~= data@.subrange(0, i as int));
        if data[i] > top {
            top = data[i];
        }
        i = i + 1;
    }
    assert(data@.subrange(0, data.len() as int) =~= data@);
    let mut bottom: u32 = top;
    let mut j: usize = 0;
    while j < data.len()
        invariant
            j <= data.len(),
            top == max_of(data@),
            bottom == min_from(data@.subrange(0, j as int), top as nat),
        decreases data.len() - j,
    {
        assert(data@.subrange(0, j + 1).drop_last() =~= data@.subrange(0, j as int));
        if data[j] < bottom {
            bottom = data[j];
        }
        j = j + 1;
    }
    assert(data@.subrange(0, data.len() as int) =~= data@);
    (top, bottom)
}

/// The coordinates of sample `i` as (x numerator, x denominator,
/// y numerator, y denominator).
pub fn point(data: &Vec<u32>, i: usize, scaling: Scaling, width: u32, height: u32, top: u32, bottom: u32) -> (r: (u128, u128, u128, u128))
    requires
        i < data.len(),
        drawable(data@, scaling),
        top == max_of(data@),
        bottom == min_of(data@),
    ensures
        (r.0 as nat, r.1 as nat) == x_of(scaling, data.len() as nat, width as nat, i as nat),
        (r.2 as nat, r.3 as nat) == y_of(scaling, data@, height as nat, i as int),
        0 < r.1 < 0x1_0000_0000_0000_0000_0000_0000,
        0 < r.3 < 0x1_0000_0000_0000_0000_0000_0000,
        r.0 < 0x1_0000_0000_0000_0000_0000_0000,
        r.2 < 0x1_0000_0000_0000_0000_0000_0000,
{
    proof {
        lemma_max_bounds(data@);
    }
    let rise: u32 = top - data[i];
    match scaling {
        Scaling::IndexUnit => (i as u128, 1, rise as u128, 1),
        Scaling::PixelBox => {
            let n: usize = data.len();
            assert((i as u128) * (width as u128) < 0x1_0000_0000_0000_0000_0000_0000) by (nonlinear_arith)
                requires
                    i < 0x1_0000_0000_0000_0000,
                    width < 0x1_0000_0000,
            ;
            assert((rise as u128) * (height as u128) < 0x1_0000_0000_0000_0000) by (nonlinear_arith)
                requires
                    rise < 0x1_0000_0000,
                    height < 0x1_0000_0000,
            ;
            (
                i as u128 * width as u128,
                (n - 1) as u128,
                rise as u128 * height as u128,
                (top - bottom) as u128,
            )
        },
    }
}

} // verus!
