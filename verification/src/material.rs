use vstd::prelude::*;
use crate::grid::lemma_grid_coords;
use crate::heightfield::height_of;
use crate::heightfield::heights_of;
use crate::heightfield::lemma_height_sample;
use crate::params::MapParams;
use crate::params::UNIT;

verus! {

/// The shading inputs that belong to one generated surface.
#[derive(Clone, Copy, Debug, PartialEq, Eq, Structural)]
pub struct MaterialParameters {
    /// Height of the lowest vertex, in thousandths.
    pub min_height: i64,
    /// Height of the highest vertex, in thousandths.
    pub max_height: i64,
    /// Roughness in thousandths: `UNIT` on a flat surface, falling towards half
    /// of it as the relief grows against the grid spacing.
    pub roughness: i32,
}

impl MaterialParameters {
    /// Distance between the highest and the lowest vertex.
    pub open spec fn height_range(self) -> int {
        self.max_height - self.min_height
    }

    /// Computes the distance between the highest and the lowest vertex, or
    /// `None` where it does not fit an `i64`.
    pub fn span(&self) -> (r: Option<i64>)
        ensures
            match r {
                Some(d) => d == self.height_range(),
                None => self.height_range() < i64::MIN || self.height_range() > i64::MAX,
            },
    {
        self.max_height.checked_sub(self.min_height)
    }
}

/// The smallest of the first `n` values of `s`.
pub open spec fn lowest_of(s: Seq<i64>, n: nat) -> int
    decreases n,
{
    if n <= 1 {
        s[0] as int
    } else {
        let rest = lowest_of(s, (n - 1) as nat);
        if s[n - 1] < rest {
            s[n - 1] as int
        } else {
            rest
        }
    }
}

/// The largest of the first `n` values of `s`.
pub open spec fn highest_of(s: Seq<i64>, n: nat) -> int
    decreases n,
{
    if n <= 1 {
        s[0] as int
    } else {
        let rest = highest_of(s, (n - 1) as nat);
        if s[n - 1] > rest {
            s[n - 1] as int
        } else {
            rest
        }
    }
}

/// Roughness of a surface whose heights span `range` on a grid spaced `scale`
/// apart.
pub open spec fn roughness_of(range: int, scale: int) -> int {
    UNIT - (UNIT / 2) * range / (range + scale)
}

/// The material generated from `p`.
pub open spec fn material_of(p: MapParams) -> MaterialParameters {
    let heights = heights_of(p);
    let low = lowest_of(heights, heights.len());
    let high = highest_of(heights, heights.len());
    MaterialParameters {
        min_height: low as i64,
        max_height: high as i64,
        roughness: roughness_of(high - low, p.scale as int) as i32,
    }
}

/// The smallest of the first `n` values is one of them and none of them is
/// smaller.
pub proof fn lemma_lowest(s: Seq<i64>, n: nat)
    requires
        1 <= n <= s.len(),
    ensures
        forall|k: int| 0 <= k < n ==> lowest_of(s, n) <= #[trigger] s[k],
        exists|k: int| 0 <= k < n && lowest_of(s, n) == #[trigger] s[k],
    decreases n,
{
    if n > 1 {
        lemma_lowest(s, (n - 1) as nat);
        let k0 = choose|k: int| 0 <= k < n - 1 && lowest_of(s, (n - 1) as nat) == #[trigger] s[k];
        if s[n - 1] < lowest_of(s, (n - 1) as nat) {
            assert(lowest_of(s, n) == s[n - 1]);
        } else {
            assert(lowest_of(s, n) == s[k0]);
        }
    } else {
        assert(lowest_of(s, n) == s[0]);
    }
}

/// The largest of the first `n` values is one of them and none of them is
/// larger.
pub proof fn lemma_highest(s: Seq<i64>, n: nat)
    requires
        1 <= n <= s.len(),
    ensures
        forall|k: int| 0 <= k < n ==> highest_of(s, n) >= #[trigger] s[k],
        exists|k: int| 0 <= k < n && highest_of(s, n) == #[trigger] s[k],
    decreases n,
{
    if n > 1 {
        lemma_highest(s, (n - 1) as nat);
        let k0 = choose|k: int| 0 <= k < n - 1 && highest_of(s, (n - 1) as nat) == #[trigger] s[k];
        if s[n - 1] > highest_of(s, (n - 1) as nat) {
            assert(highest_of(s, n) == s[n - 1]);
        } else {
            assert(highest_of(s, n) == s[k0]);
        }
    } else {
        assert(highest_of(s, n) == s[0]);
    }
}

/// Roughness lies above half a unit and reaches a whole unit exactly on a
/// flat surface.
pub proof fn lemma_roughness_range(range: int, scale: int)
    requires
        0 <= range,
        1 <= scale,
    ensures
        UNIT / 2 < roughness_of(range, scale) <= UNIT,
        range == 0 ==> roughness_of(range, scale) == UNIT,
{
    let d = range + scale;
    let n = 500 * range;
    assert(0 <= n < 500 * d);
    assert(0 <= n / d < 500) by (nonlinear_arith)
        requires
            0 <= n < 500 * d,
            d >= 1,
    ;
    assert(n / d == (UNIT / 2) * range / (range + scale));
    if range == 0 {
        assert(n / d == 0);
    }
}

/// The material records the exact bounds of the generated heights: every
/// vertex lies between them, and each bound is the height of some vertex.
pub proof fn lemma_material_bounds(p: MapParams)
    requires
        p.is_valid(),
    ensures
        -p.amplitude <= material_of(p).min_height <= material_of(p).max_height <= p.amplitude,
        forall|i: int, j: int|
            0 <= i < p.width && 0 <= j < p.height ==> material_of(p).min_height
                <= #[trigger] height_of(p, i, j) <= material_of(p).max_height,
        exists|i: int, j: int|
            0 <= i < p.width && 0 <= j < p.height && material_of(p).min_height
                == #[trigger] height_of(p, i, j),
        exists|i: int, j: int|
            0 <= i < p.width && 0 <= j < p.height && material_of(p).max_height
                == #[trigger] height_of(p, i, j),
        UNIT / 2 < material_of(p).roughness <= UNIT,
        material_of(p).roughness == roughness_of(
            material_of(p).height_range(),
            p.scale as int,
        ),
{
    let heights = heights_of(p);
    let n = heights.len();
    let w = p.width as int;
    let h = p.height as int;
    assert(n == w * h);
    assert(n >= 4) by (nonlinear_arith)
        requires
            n == w * h,
            w >= 2,
            h >= 2,
    ;
    lemma_lowest(heights, n);
    lemma_highest(heights, n);
    let low = lowest_of(heights, n);
    let high = highest_of(heights, n);
    let kl = choose|k: int| 0 <= k < n && lowest_of(heights, n) == #[trigger] heights[k];
    let kh = choose|k: int| 0 <= k < n && highest_of(heights, n) == #[trigger] heights[k];
    lemma_grid_coords(w, h, kl);
    lemma_grid_coords(w, h, kh);
    lemma_height_sample(p, kl % w, kl / w);
    lemma_height_sample(p, kh % w, kh / w);
    assert(low == height_of(p, kl % w, kl / w));
    assert(high == height_of(p, kh % w, kh / w));
    assert(low <= heights[kh]);
    assert forall|i: int, j: int| 0 <= i < p.width && 0 <= j < p.height implies low
        <= #[trigger] height_of(p, i, j) <= high by {
        lemma_height_sample(p, i, j);
        let k = crate::grid::grid_index(w, i, j);
        assert(low <= heights[k]);
        assert(high >= heights[k]);
    }
    lemma_roughness_range(high - low, p.scale as int);
}

/// With amplitude zero the material records a height range of zero.
pub proof fn lemma_flat_material(p: MapParams)
    requires
        p.is_valid(),
        p.amplitude == 0,
    ensures
        material_of(p).min_height == 0,
        material_of(p).max_height == 0,
        material_of(p).height_range() == 0,
        material_of(p).roughness == UNIT,
{
    lemma_material_bounds(p);
    lemma_roughness_range(0, p.scale as int);
}

/// Computes the material from the sampled heights of `params`.
pub fn summarize(params: &MapParams, heights: &Vec<i64>) -> (m: MaterialParameters)
    requires
        params.is_valid(),
        heights@ == heights_of(*params),
    ensures
        m == material_of(*params),
{
    proof {
        lemma_material_bounds(*params);
        assert(heights@.len() >= 4) by (nonlinear_arith)
            requires
                heights@.len() == params.width * params.height,
                params.width >= 2,
                params.height >= 2,
        ;
    }
    let mut low: i64 = heights[0];
    let mut high: i64 = heights[0];
    let mut k: usize = 1;
    while k < heights.len()
        invariant
            1 <= k <= heights@.len(),
            low == lowest_of(heights@, k as nat),
            high == highest_of(heights@, k as nat),
        decreases heights@.len() - k,
    {
        let h: i64 = heights[k];
        if h < low {
            low = h;
        }
        if h > high {
            high = h;
        }
        k += 1;
    }
    let range: i64 = high - low;
    let scale: i64 = params.scale as i64;
    proof {
        lemma_roughness_range(range as int, scale as int);
    }
    let fall: i64 = (UNIT as i64 / 2) * range / (range + scale);
    MaterialParameters { min_height: low, max_height: high, roughness: (UNIT as i64 - fall) as i32 }
}

} // verus!
