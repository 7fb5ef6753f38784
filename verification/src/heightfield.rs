use vstd::prelude::*;
use crate::grid::grid_index;
use crate::grid::lemma_grid_index;
use crate::params::MapParams;

verus! {

/// Modulus of the lattice hash: the Mersenne prime 2^31 - 1.
pub const HASH_MODULUS: u64 = 2_147_483_647;

/// Increment added in every round of the lattice hash.
pub const HASH_INCREMENT: u64 = 12_345;

/// Grid points between two neighbouring lattice points.
pub const LATTICE_STEP: i32 = 4;

/// Largest value at a lattice point; values run from 0, with the zero plane
/// half way.
pub const LATTICE_TOP: u64 = 2000;

/// Largest blended value: `LATTICE_TOP` times the square of `LATTICE_STEP`.
pub const BLEND_TOP: u64 = 32_000;

/// One round of the lattice hash: square, add, reduce.
pub open spec fn scramble(v: int) -> int {
    (v * v + HASH_INCREMENT as int) % (HASH_MODULUS as int)
}

/// The value that `seed` places at lattice point `(a, b)`, from 0 to
/// `LATTICE_TOP`: the seed is hashed twice, then the column and the row are
/// each added and hashed.
pub open spec fn lattice_value(seed: u64, a: int, b: int) -> int {
    let mixed = scramble(scramble(seed as int % (HASH_MODULUS as int)));
    scramble(scramble(mixed + a) + b) % (LATTICE_TOP as int + 1)
}

/// The bilinear blend of the four lattice values around grid point `(i, j)`,
/// weighted by the distances to them and not yet divided by the total weight.
pub open spec fn blend(seed: u64, i: int, j: int) -> int {
    let a = i / (LATTICE_STEP as int);
    let b = j / (LATTICE_STEP as int);
    let fx = i % (LATTICE_STEP as int);
    let fz = j % (LATTICE_STEP as int);
    lattice_value(seed, a, b) * ((LATTICE_STEP - fx) * (LATTICE_STEP - fz)) + lattice_value(
        seed,
        a + 1,
        b,
    ) * (fx * (LATTICE_STEP - fz)) + lattice_value(seed, a, b + 1) * ((LATTICE_STEP - fx) * fz)
        + lattice_value(seed, a + 1, b + 1) * (fx * fz)
}

/// The height of the surface at grid point `(i, j)`, in thousandths.
///
/// The blend covers `0..=BLEND_TOP`; it is stretched to twice the amplitude and
/// centred on the zero plane.
pub open spec fn height_of(p: MapParams, i: int, j: int) -> int {
    p.amplitude * blend(p.seed, i, j) / (BLEND_TOP as int / 2) - p.amplitude
}

/// A round of the hash stays below the modulus.
pub proof fn lemma_scramble_range(v: int)
    ensures
        0 <= scramble(v) < HASH_MODULUS,
{
}

/// A lattice value lies between 0 and `LATTICE_TOP`.
pub proof fn lemma_lattice_range(seed: u64, a: int, b: int)
    ensures
        0 <= lattice_value(seed, a, b) <= LATTICE_TOP,
{
}

/// A blend lies between 0 and `BLEND_TOP`.
pub proof fn lemma_blend_range(seed: u64, i: int, j: int)
    requires
        0 <= i,
        0 <= j,
    ensures
        0 <= blend(seed, i, j) <= BLEND_TOP,
{
    let a = i / (LATTICE_STEP as int);
    let b = j / (LATTICE_STEP as int);
    let fx = i % (LATTICE_STEP as int);
    let fz = j % (LATTICE_STEP as int);
    lemma_weighted_sum_range(
        lattice_value(seed, a, b),
        lattice_value(seed, a + 1, b),
        lattice_value(seed, a, b + 1),
        lattice_value(seed, a + 1, b + 1),
        fx,
        fz,
    );
}

/// Four values of at most `LATTICE_TOP`, weighted bilinearly, sum to at most
/// `BLEND_TOP`.
proof fn lemma_weighted_sum_range(v00: int, v10: int, v01: int, v11: int, fx: int, fz: int)
    requires
        0 <= v00 <= LATTICE_TOP,
        0 <= v10 <= LATTICE_TOP,
        0 <= v01 <= LATTICE_TOP,
        0 <= v11 <= LATTICE_TOP,
        0 <= fx < LATTICE_STEP,
        0 <= fz < LATTICE_STEP,
    ensures
        0 <= v00 * ((4 - fx) * (4 - fz)) + v10 * (fx * (4 - fz)) + v01 * ((4 - fx) * fz) + v11 * (fx
            * fz) <= BLEND_TOP,
        0 <= v00 * ((4 - fx) * (4 - fz)) <= 2000 * ((4 - fx) * (4 - fz)),
        0 <= v10 * (fx * (4 - fz)) <= 2000 * (fx * (4 - fz)),
        0 <= v01 * ((4 - fx) * fz) <= 2000 * ((4 - fx) * fz),
        0 <= v11 * (fx * fz) <= 2000 * (fx * fz),
        (4 - fx) * (4 - fz) + fx * (4 - fz) + (4 - fx) * fz + fx * fz == 16,
        0 <= (4 - fx) * (4 - fz) <= 16,
        0 <= fx * (4 - fz) <= 16,
        0 <= (4 - fx) * fz <= 16,
        0 <= fx * fz <= 16,
{
    let w00 = (4 - fx) * (4 - fz);
    let w10 = fx * (4 - fz);
    let w01 = (4 - fx) * fz;
    let w11 = fx * fz;
    assert(w00 >= 0 && w10 >= 0 && w01 >= 0 && w11 >= 0 && w00 + w10 + w01 + w11 == 16)
        by (nonlinear_arith)
        requires
            0 <= fx < 4,
            0 <= fz < 4,
            w00 == (4 - fx) * (4 - fz),
            w10 == fx * (4 - fz),
            w01 == (4 - fx) * fz,
            w11 == fx * fz,
    ;
    assert(0 <= v00 * w00 <= 2000 * w00) by (nonlinear_arith)
        requires
            0 <= v00 <= 2000,
            0 <= w00,
    ;
    assert(0 <= v10 * w10 <= 2000 * w10) by (nonlinear_arith)
        requires
            0 <= v10 <= 2000,
            0 <= w10,
    ;
    assert(0 <= v01 * w01 <= 2000 * w01) by (nonlinear_arith)
        requires
            0 <= v01 <= 2000,
            0 <= w01,
    ;
    assert(0 <= v11 * w11 <= 2000 * w11) by (nonlinear_arith)
        requires
            0 <= v11 <= 2000,
            0 <= w11,
    ;
}

/// No vertex is farther from the zero plane than the amplitude.
pub proof fn lemma_height_within_amplitude(p: MapParams, i: int, j: int)
    requires
        0 <= p.amplitude,
        0 <= i,
        0 <= j,
    ensures
        -p.amplitude <= height_of(p, i, j) <= p.amplitude,
{
    lemma_blend_range(p.seed, i, j);
    let s = blend(p.seed, i, j);
    let amp = p.amplitude as int;
    assert(0 <= amp * s <= amp * 32_000) by (nonlinear_arith)
        requires
            0 <= amp,
            0 <= s <= 32_000,
    ;
    assert(amp * 32_000 == (2 * amp) * 16_000);
    assert(0 <= (amp * s) / 16_000 <= 2 * amp) by (nonlinear_arith)
        requires
            0 <= amp * s <= (2 * amp) * 16_000,
    ;
}

/// With amplitude zero the surface is the zero plane.
pub proof fn lemma_zero_amplitude_is_flat(p: MapParams, i: int, j: int)
    requires
        p.amplitude == 0,
    ensures
        height_of(p, i, j) == 0,
{
    assert(p.amplitude * blend(p.seed, i, j) == 0) by (nonlinear_arith)
        requires
            p.amplitude == 0,
    ;
}

/// Runs one round of the lattice hash.
pub fn scramble_round(v: u64) -> (r: u64)
    requires
        v <= u32::MAX,
    ensures
        r == scramble(v as int),
        r < HASH_MODULUS,
{
    assert(v * v <= 0xFFFF_FFFF * 0xFFFF_FFFF) by (nonlinear_arith)
        requires
            0 <= v <= 0xFFFF_FFFF,
    ;
    (v * v + HASH_INCREMENT) % HASH_MODULUS
}

/// Computes the value that `seed` places at lattice point `(a, b)`.
pub fn lattice_at(seed: u64, a: u32, b: u32) -> (r: u64)
    requires
        a <= i32::MAX,
        b <= i32::MAX,
    ensures
        r == lattice_value(seed, a as int, b as int),
        r <= LATTICE_TOP,
{
    let mixed: u64 = scramble_round(scramble_round(seed % HASH_MODULUS));
    let column: u64 = scramble_round(mixed + a as u64);
    let point: u64 = scramble_round(column + b as u64);
    point % (LATTICE_TOP + 1)
}

/// Computes the height of the surface at grid point `(i, j)`, in thousandths.
pub fn height_at(params: &MapParams, i: i32, j: i32) -> (h: i64)
    requires
        params.is_valid(),
        0 <= i < params.width,
        0 <= j < params.height,
    ensures
        h == height_of(*params, i as int, j as int),
        -params.amplitude <= h <= params.amplitude,
{
    let a: u32 = (i / LATTICE_STEP) as u32;
    let b: u32 = (j / LATTICE_STEP) as u32;
    let fx: u64 = (i % LATTICE_STEP) as u64;
    let fz: u64 = (j % LATTICE_STEP) as u64;
    let rx: u64 = 4 - fx;
    let rz: u64 = 4 - fz;
    let v00: u64 = lattice_at(params.seed, a, b);
    let v10: u64 = lattice_at(params.seed, a + 1, b);
    let v01: u64 = lattice_at(params.seed, a, b + 1);
    let v11: u64 = lattice_at(params.seed, a + 1, b + 1);
    proof {
        lemma_weighted_sum_range(
            v00 as int,
            v10 as int,
            v01 as int,
            v11 as int,
            fx as int,
            fz as int,
        );
        lemma_height_within_amplitude(*params, i as int, j as int);
    }
    let sum: u64 = v00 * (rx * rz) + v10 * (fx * rz) + v01 * (rx * fz) + v11 * (fx * fz);
    assert(sum == blend(params.seed, i as int, j as int));
    let amplitude: u64 = params.amplitude as u64;
    assert(amplitude * sum <= 1_000_000 * 32_000) by (nonlinear_arith)
        requires
            0 <= amplitude <= 1_000_000,
            0 <= sum <= 32_000,
    ;
    let lifted: u64 = amplitude * sum / (BLEND_TOP / 2);
    lifted as i64 - params.amplitude as i64
}

/// The heights of all grid points, row by row.
pub open spec fn heights_of(p: MapParams) -> Seq<i64> {
    Seq::new(
        p.vertex_count() as nat,
        |k: int| height_of(p, k % (p.width as int), k / (p.width as int)) as i64,
    )
}

/// Computes the heights of all grid points, row by row.
pub fn sample_heights(params: &MapParams) -> (heights: Vec<i64>)
    requires
        params.is_valid(),
    ensures
        heights@ == heights_of(*params),
{
    let mut heights: Vec<i64> = Vec::new();
    let mut j: i32 = 0;
    while j < params.height
        invariant
            params.is_valid(),
            0 <= j <= params.height,
            heights@.len() == j * params.width,
            forall|k: int|
                0 <= k < heights@.len() ==> heights@[k] == height_of(
                    *params,
                    k % (params.width as int),
                    k / (params.width as int),
                ),
        decreases params.height - j,
    {
        let mut i: i32 = 0;
        while i < params.width
            invariant
                params.is_valid(),
                0 <= j < params.height,
                0 <= i <= params.width,
                heights@.len() == j * params.width + i,
                forall|k: int|
                    0 <= k < heights@.len() ==> heights@[k] == height_of(
                        *params,
                        k % (params.width as int),
                        k / (params.width as int),
                    ),
            decreases params.width - i,
        {
            let h: i64 = height_at(params, i, j);
            proof {
                lemma_grid_index(params.width as int, params.height as int, i as int, j as int);
            }
            heights.push(h);
            i += 1;
        }
        assert((j + 1) * params.width == j * params.width + params.width) by (nonlinear_arith);
        j += 1;
    }
    assert(params.height * params.width == params.width * params.height) by (nonlinear_arith);
    assert(heights@ =~= heights_of(*params));
    heights
}

/// The sequence of heights holds, at the row-major position of a grid point,
/// the height there; and that height fits the amplitude.
pub proof fn lemma_height_sample(p: MapParams, i: int, j: int)
    requires
        p.is_valid(),
        0 <= i < p.width,
        0 <= j < p.height,
    ensures
        0 <= grid_index(p.width as int, i, j) < heights_of(p).len(),
        heights_of(p)[grid_index(p.width as int, i, j)] == height_of(p, i, j),
        -p.amplitude <= height_of(p, i, j) <= p.amplitude,
{
    lemma_grid_index(p.width as int, p.height as int, i, j);
    lemma_height_within_amplitude(p, i, j);
}

} // verus!
