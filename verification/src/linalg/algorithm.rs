//! The matrix multiplication algorithms, as far as the host decides for them: how many
//! planes a cube has and how many cubes a problem takes.

use vstd::prelude::*;
use crate::linalg::components::{div_ceil, CubeDim, MatmulProblem, MatmulSelection};

verus! {

/// `a` divided by `b` and rounded up can be computed without leaving 32 bits.
pub proof fn lemma_div_ceil_bounded(a: int, b: int)
    requires
        0 <= a,
        1 <= b,
    ensures
        0 <= div_ceil(a, b) <= a,
        a > 0 ==> div_ceil(a, b) >= 1,
{
    let q = (a + b - 1) / b;
    let r = (a + b - 1) % b;
    vstd::arithmetic::div_mod::lemma_fundamental_div_mod(a + b - 1, b);
    assert(0 <= q <= a && (a > 0 ==> q >= 1)) by (nonlinear_arith)
        requires
            a + b - 1 == b * q + r,
            0 <= r < b,
            0 <= a,
            1 <= b,
    ;
}

/// Divides `a` by `b`, rounding up.
pub fn div_ceil_u32(a: u32, b: u32) -> (r: u32)
    requires
        b >= 1,
    ensures
        r == div_ceil(a as int, b as int),
{
    proof {
        lemma_div_ceil_bounded(a as int, b as int);
    }
    ((a as u64 + b as u64 - 1) / (b as u64)) as u32
}

/// The number of planes of a cube: one for every `rows_per_plane` tile rows of the stage.
pub open spec fn planes_per_cube(selection: MatmulSelection) -> int {
    div_ceil(selection.tile_count.m as int, selection.rows_per_plane as int)
}

/// The number of rows of the output that one stage covers.
pub open spec fn stage_rows(selection: MatmulSelection) -> int {
    selection.tile_count.m * selection.tile_shape.m
}

/// The number of columns of the output that one stage covers.
pub open spec fn stage_cols(selection: MatmulSelection) -> int {
    selection.tile_count.n * selection.tile_shape.n
}

/// Whether the numbers of a launch can be counted in 32 bits: the stage is not empty,
/// and the problem, rounded up to whole stages, has fewer than two to the power of 32
/// rows, columns and products.
pub open spec fn launch_fits(selection: MatmulSelection, problem: MatmulProblem) -> bool {
    &&& 1 <= stage_rows(selection)
    &&& 1 <= stage_cols(selection)
    &&& problem.m + stage_rows(selection) - 1 <= u32::MAX
    &&& problem.n + stage_cols(selection) - 1 <= u32::MAX
    &&& problem.batches <= u32::MAX
}

/// The number of cubes that a problem takes along `m`, along `n` and over its products.
/// How the three are laid out on the three axes of the launch is for the dispatch to say.
#[derive(Clone, Copy, Debug, PartialEq, Eq, Structural)]
pub struct CubeCounts {
    pub cubes_for_m: u32,
    pub cubes_for_n: u32,
    pub cubes_for_batches: u32,
}

/// The cubes of a problem: as many along each axis as it takes stages to cover it.
pub open spec fn cubes_per_problem(selection: MatmulSelection, problem: MatmulProblem) -> (
    int,
    int,
    int,
) {
    (
        div_ceil(problem.m as int, stage_rows(selection)),
        div_ceil(problem.n as int, stage_cols(selection)),
        problem.batches as int,
    )
}

/// The size of a cube: planes of `plane_dim` units, as many as the stage has tile rows
/// to give them.
pub fn cube_dim(selection: &MatmulSelection) -> (r: CubeDim)
    requires
        selection.rows_per_plane >= 1,
    ensures
        r.x == selection.plane_dim,
        r.y == planes_per_cube(*selection),
        r.z == 1,
{
    let num_planes = div_ceil_u32(selection.tile_count.m, selection.rows_per_plane);
    CubeDim::new(selection.plane_dim, num_planes, 1)
}

/// The number of cubes of a launch.
pub fn cube_count(selection: &MatmulSelection, problem: &MatmulProblem) -> (r: CubeCounts)
    requires
        launch_fits(*selection, *problem),
    ensures
        (r.cubes_for_m as int, r.cubes_for_n as int, r.cubes_for_batches as int)
            == cubes_per_problem(*selection, *problem),
{
    let m_stage = selection.tile_count.m as u64 * selection.tile_shape.m as u64;
    let n_stage = selection.tile_count.n as u64 * selection.tile_shape.n as u64;
    proof {
        lemma_div_ceil_bounded(problem.m as int, m_stage as int);
        lemma_div_ceil_bounded(problem.n as int, n_stage as int);
    }
    let cubes_for_m = (problem.m as u64 + m_stage - 1) / m_stage;
    let cubes_for_n = (problem.n as u64 + n_stage - 1) / n_stage;
    CubeCounts {
        cubes_for_m: cubes_for_m as u32,
        cubes_for_n: cubes_for_n as u32,
        cubes_for_batches: problem.num_batches() as u32,
    }
}

/// Loads both inputs whole into the stage, then multiplies.
pub struct SimpleAlgorithm;

/// As [`SimpleAlgorithm`], with the loads started ahead of the multiplication.
pub struct SimplePipelinedAlgorithm;

/// Loads one half of the stage while the other half is multiplied.
pub struct DoubleBufferingAlgorithm;

impl SimpleAlgorithm {
    /// The size of a cube.
    pub fn cube_dim(selection: &MatmulSelection) -> (r: CubeDim)
        requires
            selection.rows_per_plane >= 1,
        ensures
            r.x == selection.plane_dim,
            r.y == planes_per_cube(*selection),
            r.z == 1,
    {
        cube_dim(selection)
    }

    /// The number of cubes of a launch.
    pub fn cube_count(selection: &MatmulSelection, problem: &MatmulProblem) -> (r: CubeCounts)
        requires
            launch_fits(*selection, *problem),
        ensures
            (r.cubes_for_m as int, r.cubes_for_n as int, r.cubes_for_batches as int)
                == cubes_per_problem(*selection, *problem),
    {
        cube_count(selection, problem)
    }
}

impl SimplePipelinedAlgorithm {
    /// The size of a cube.
    pub fn cube_dim(selection: &MatmulSelection) -> (r: CubeDim)
        requires
            selection.rows_per_plane >= 1,
        ensures
            r.x == selection.plane_dim,
            r.y == planes_per_cube(*selection),
            r.z == 1,
    {
        cube_dim(selection)
    }

    /// The number of cubes of a launch.
    pub fn cube_count(selection: &MatmulSelection, problem: &MatmulProblem) -> (r: CubeCounts)
        requires
            launch_fits(*selection, *problem),
        ensures
            (r.cubes_for_m as int, r.cubes_for_n as int, r.cubes_for_batches as int)
                == cubes_per_problem(*selection, *problem),
    {
        cube_count(selection, problem)
    }
}

impl DoubleBufferingAlgorithm {
    /// The size of a cube.
    pub fn cube_dim(selection: &MatmulSelection) -> (r: CubeDim)
        requires
            selection.rows_per_plane >= 1,
        ensures
            r.x == selection.plane_dim,
            r.y == planes_per_cube(*selection),
            r.z == 1,
    {
        cube_dim(selection)
    }

    /// The number of cubes of a launch.
    pub fn cube_count(selection: &MatmulSelection, problem: &MatmulProblem) -> (r: CubeCounts)
        requires
            launch_fits(*selection, *problem),
        ensures
            (r.cubes_for_m as int, r.cubes_for_n as int, r.cubes_for_batches as int)
                == cubes_per_problem(*selection, *problem),
    {
        cube_count(selection, problem)
    }
}

} // verus!
