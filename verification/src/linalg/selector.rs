//! The heuristics that pick the tile shape and the stage size of a matrix multiplication
//! from the problem and the device.

use vstd::prelude::*;
use crate::linalg::components::{
    div_ceil, CompleteStageTiling, MatmulProblem, MatmulSelection, MatmulSize,
};

verus! {

/// The number of streaming multiprocessors assumed of a device that does not say.
pub const NUM_SM_APPROX: u32 = 50;

/// The number of tensor cores assumed of a device that does not say.
pub const NUM_TENSOR_CORES_APPROX: u32 = 4;

/// The number of planes that keep one tensor core busy.
pub const NUM_PLANES_PER_TENSOR_CORES: u32 = 2;

/// From how many stages along `m` on a plane would compute two tile rows.
pub const MINIMUM_STAGE_COUNT_FOR_MULTI_ROW_STAGE: usize = 8;

/// Whether a plane may compute two tile rows.
pub const MULTI_ROW_ENABLED: bool = false;

/// The largest number of tile rows and columns that a stage is given.
pub const MAX_STAGE_ELEMENTS: usize = 256;

/// The tile shapes that the matrix units of a device support.
#[derive(Clone, Copy, Debug, PartialEq, Eq, Structural)]
pub struct CmmaSupport {
    pub m32_n8_k16: bool,
    pub m8_n32_k16: bool,
    pub m16_n16_k16: bool,
    pub m8_n8_k8: bool,
}

/// What a device says of its size; `None` where it does not say.
#[derive(Clone, Copy, Debug, PartialEq, Eq, Structural)]
pub struct HardwareProperties {
    pub num_tensor_cores: Option<u32>,
    pub num_streaming_multiprocessors: Option<u32>,
}

/// The tile shape for a problem of `m` rows and `n` columns. With `properties` absent
/// every shape counts as supported.
///
/// A tall problem (`m` at least four times `n`) gets 32 by 8 by 16. The wide shape, 8 by
/// 32 by 16, is tested with `n >= 4 * n`, so it is chosen for `n == 0` only. Then come
/// 16 by 16 by 16 and 8 by 8 by 8, and where nothing is supported 16 by 16 by 8.
pub open spec fn instruction_shape(properties: Option<CmmaSupport>, m: int, n: int) -> (
    int,
    int,
    int,
) {
    let tall = properties matches Some(p) ==> p.m32_n8_k16;
    let wide = properties matches Some(p) ==> p.m8_n32_k16;
    let square = properties matches Some(p) ==> p.m16_n16_k16;
    let small = properties matches Some(p) ==> p.m8_n8_k8;
    if m >= 4 * n && tall {
        (32, 8, 16)
    } else if n >= 4 * n && wide {
        (8, 32, 16)
    } else if square {
        (16, 16, 16)
    } else if small {
        (8, 8, 8)
    } else {
        (16, 16, 8)
    }
}

/// Picks the tile shape for a problem of `m` rows and `n` columns.
pub fn find_instruction_shape(properties: Option<CmmaSupport>, m: usize, n: usize) -> (r: (
    usize,
    usize,
    usize,
))
    ensures
        (r.0 as int, r.1 as int, r.2 as int) == instruction_shape(properties, m as int, n as int),
{
    let (tall, wide, square, small) = match properties {
        Some(p) => (p.m32_n8_k16, p.m8_n32_k16, p.m16_n16_k16, p.m8_n8_k8),
        None => (true, true, true, true),
    };
    let m_is_tall = match n.checked_mul(4) {
        Some(four_n) => m >= four_n,
        None => false,
    };
    if m_is_tall && tall {
        (32, 8, 16)
    } else if n == 0 && wide {
        (8, 32, 16)
    } else if square {
        (16, 16, 16)
    } else if small {
        (8, 8, 8)
    } else {
        (16, 16, 8)
    }
}

/// The number of cubes that a problem of `total_tiles` tiles takes with stages of `dim`
/// by `dim` tiles.
pub open spec fn cubes_expected(total_tiles: int, dim: int) -> int {
    div_ceil(total_tiles, dim * dim)
}

/// The search for the stage size: as long as there are fewer cubes than multiprocessors
/// and the stage has more than one tile, the stage is halved each way, rounding up. What
/// comes back is the size at which the search stops, the size before it, and the number
/// of cubes of the size before it.
pub open spec fn refine_stage(
    dim: int,
    previous_dim: int,
    previous_cubes: int,
    total_tiles: int,
    num_sm: int,
) -> (int, int, int)
    decreases dim,
{
    if dim > 1 && cubes_expected(total_tiles, dim) < num_sm {
        refine_stage((dim + 1) / 2, dim, cubes_expected(total_tiles, dim), total_tiles, num_sm)
    } else {
        (dim, previous_dim, previous_cubes)
    }
}

/// The distance between two numbers.
pub open spec fn distance(a: int, b: int) -> int {
    if a >= b {
        a - b
    } else {
        b - a
    }
}

/// The number of tiles of the whole problem.
pub open spec fn total_tiles(
    m: int,
    n: int,
    num_batches: int,
    instruction_m: int,
    instruction_n: int,
) -> int {
    div_ceil(m, instruction_m) * div_ceil(n, instruction_n) * num_batches
}

/// The number of tiles, each way, of a stage: as many as the tensor cores can use, unless
/// that leaves multiprocessors without a cube. Of the last two sizes that the search
/// tried, the one whose number of cubes is closer to the number of multiprocessors is
/// taken, the larger stage where both are as close.
pub open spec fn stage_size(
    m: int,
    n: int,
    num_batches: int,
    num_sm: int,
    virtual_tensor_cores: int,
    instruction_m: int,
    instruction_n: int,
) -> int {
    let min_inst = if instruction_m <= instruction_n {
        instruction_m
    } else {
        instruction_n
    };
    let max_tiles = MAX_STAGE_ELEMENTS as int / min_inst;
    let dim = if virtual_tensor_cores <= max_tiles {
        virtual_tensor_cores
    } else {
        max_tiles
    };
    let total = total_tiles(m, n, num_batches, instruction_m, instruction_n);
    let (last, previous, previous_cubes) = refine_stage(
        dim,
        dim,
        cubes_expected(total, dim),
        total,
        num_sm,
    );
    if distance(previous_cubes, num_sm) <= distance(cubes_expected(total, last), num_sm) {
        previous
    } else {
        last
    }
}

/// Whether the sizes of a problem are within what the search can count: the tile shape
/// is between 1 and 256 each way, there is a tensor core to use, and the number of tiles
/// leaves room for rounding up.
pub open spec fn stage_inputs_fit(
    m: int,
    n: int,
    num_batches: int,
    virtual_tensor_cores: int,
    instruction_m: int,
    instruction_n: int,
) -> bool {
    &&& 1 <= instruction_m <= MAX_STAGE_ELEMENTS
    &&& 1 <= instruction_n <= MAX_STAGE_ELEMENTS
    &&& 1 <= virtual_tensor_cores
    &&& m + instruction_m <= usize::MAX
    &&& n + instruction_n <= usize::MAX
    &&& div_ceil(m, instruction_m) * div_ceil(n, instruction_n) <= usize::MAX
    &&& total_tiles(m, n, num_batches, instruction_m, instruction_n) + MAX_STAGE_ELEMENTS
        * MAX_STAGE_ELEMENTS <= usize::MAX
}

/// Finds the number of tiles, each way, of a stage.
pub fn find_stage_size(
    m: usize,
    n: usize,
    num_batches: usize,
    num_sm: usize,
    virtual_tensor_cores: usize,
    instruction_m: usize,
    instruction_n: usize,
) -> (r: usize)
    requires
        stage_inputs_fit(
            m as int,
            n as int,
            num_batches as int,
            virtual_tensor_cores as int,
            instruction_m as int,
            instruction_n as int,
        ),
    ensures
        r == stage_size(
            m as int,
            n as int,
            num_batches as int,
            num_sm as int,
            virtual_tensor_cores as int,
            instruction_m as int,
            instruction_n as int,
        ),
        1 <= r <= MAX_STAGE_ELEMENTS,
{
    let min_inst = if instruction_m <= instruction_n {
        instruction_m
    } else {
        instruction_n
    };
    let max_tiles = 256 / min_inst;
    let mut dim_num_tiles = if virtual_tensor_cores <= max_tiles {
        virtual_tensor_cores
    } else {
        max_tiles
    };
    assert(1 <= max_tiles <= 256) by {
        vstd::arithmetic::div_mod::lemma_div_is_ordered_by_denominator(256, 1, min_inst as int);
        vstd::arithmetic::div_mod::lemma_div_non_zero(256, min_inst as int);
    }

    let total_tiles_m = (m + instruction_m - 1) / instruction_m;
    let total_tiles_n = (n + instruction_n - 1) / instruction_n;
    let tiles = total_tiles_m * total_tiles_n * num_batches;

    proof {
        lemma_square_bounds(dim_num_tiles as int);
    }
    let mut stage_num_tiles = dim_num_tiles * dim_num_tiles;
    let mut num_cubes_expected = (tiles + stage_num_tiles - 1) / stage_num_tiles;

    let mut previous_dim_num_tiles = dim_num_tiles;
    let mut previous_num_cubes = num_cubes_expected;
    let ghost first = dim_num_tiles as int;

    while num_cubes_expected < num_sm && stage_num_tiles > 1
        invariant
            1 <= dim_num_tiles <= 256,
            1 <= previous_dim_num_tiles <= 256,
            stage_num_tiles == dim_num_tiles * dim_num_tiles,
            num_cubes_expected == cubes_expected(tiles as int, dim_num_tiles as int),
            tiles + MAX_STAGE_ELEMENTS * MAX_STAGE_ELEMENTS <= usize::MAX,
            refine_stage(
                first,
                first,
                cubes_expected(tiles as int, first),
                tiles as int,
                num_sm as int,
            ) == refine_stage(
                dim_num_tiles as int,
                previous_dim_num_tiles as int,
                previous_num_cubes as int,
                tiles as int,
                num_sm as int,
            ),
        decreases dim_num_tiles,
    {
        previous_dim_num_tiles = dim_num_tiles;
        previous_num_cubes = num_cubes_expected;
        proof {
            lemma_square_bounds(dim_num_tiles as int);
            lemma_square_bounds((dim_num_tiles as int + 1) / 2);
        }

        dim_num_tiles = (dim_num_tiles + 1) / 2;
        stage_num_tiles = dim_num_tiles * dim_num_tiles;

        num_cubes_expected = (tiles + stage_num_tiles - 1) / stage_num_tiles;
    }
    proof {
        lemma_square_bounds(dim_num_tiles as int);
    }

    let previous_distance = if previous_num_cubes >= num_sm {
        previous_num_cubes - num_sm
    } else {
        num_sm - previous_num_cubes
    };
    let current_distance = if num_cubes_expected >= num_sm {
        num_cubes_expected - num_sm
    } else {
        num_sm - num_cubes_expected
    };
    if previous_distance <= current_distance {
        previous_dim_num_tiles
    } else {
        dim_num_tiles
    }
}

/// A number between 1 and 256 has a square between 1 and 65536, which is 1 only for 1.
pub proof fn lemma_square_bounds(dim: int)
    requires
        1 <= dim <= 256,
    ensures
        1 <= dim * dim <= 65536,
        dim * dim > 1 <==> dim > 1,
{
    assert(1 <= dim * dim <= 65536 && (dim * dim > 1 <==> dim > 1)) by (nonlinear_arith)
        requires
            1 <= dim <= 256,
    ;
}

/// The number of tile rows that a plane computes, and the number of tiles of the stage
/// along `m` and along `n`. While planes compute one tile row each, the stage is square.
pub open spec fn rows_per_plane(stage_size: int, instruction_m: int, problem_m: int) -> (
    int,
    int,
    int,
) {
    if MULTI_ROW_ENABLED && problem_m > stage_size * instruction_m
        * MINIMUM_STAGE_COUNT_FOR_MULTI_ROW_STAGE {
        (2, stage_size * 2, stage_size)
    } else {
        (1, stage_size, stage_size)
    }
}

/// Decides how many tile rows a plane computes.
pub fn change_rows_per_plane(stage_size: usize, instruction_m: usize, problem_m: usize) -> (r: (
    usize,
    usize,
    usize,
))
    ensures
        (r.0 as int, r.1 as int, r.2 as int) == rows_per_plane(
            stage_size as int,
            instruction_m as int,
            problem_m as int,
        ),
{
    (1, stage_size, stage_size)
}

/// The number of planes that are kept busy: two for each tensor core, and eight at most.
pub open spec fn virtual_tensor_cores(hardware: HardwareProperties) -> int {
    let cores = match hardware.num_tensor_cores {
        Some(cores) => cores,
        None => NUM_TENSOR_CORES_APPROX,
    };
    if cores * NUM_PLANES_PER_TENSOR_CORES >= 8 {
        8
    } else {
        cores * NUM_PLANES_PER_TENSOR_CORES
    }
}

/// The number of multiprocessors of a device, assumed where the device does not say.
pub open spec fn streaming_multiprocessors(hardware: HardwareProperties) -> int {
    match hardware.num_streaming_multiprocessors {
        Some(count) => count as int,
        None => NUM_SM_APPROX as int,
    }
}

/// The tile shape that is looked for: among the supported ones where the multiplication
/// runs on tensor cores, among all otherwise.
pub open spec fn selected_shape(
    requires_tensor_cores: bool,
    support: CmmaSupport,
    problem: MatmulProblem,
) -> (int, int, int) {
    instruction_shape(
        if requires_tensor_cores {
            Some(support)
        } else {
            None
        },
        problem.m as int,
        problem.n as int,
    )
}

/// Whether a problem and a device are within what the selection can count.
pub open spec fn selection_inputs_fit(
    requires_tensor_cores: bool,
    support: CmmaSupport,
    hardware: HardwareProperties,
    problem: MatmulProblem,
) -> bool {
    let shape = selected_shape(requires_tensor_cores, support, problem);
    stage_inputs_fit(
        problem.m as int,
        problem.n as int,
        problem.batches as int,
        virtual_tensor_cores(hardware),
        shape.0,
        shape.1,
    )
}

/// The selection for a problem on a device.
pub open spec fn selection(
    requires_tensor_cores: bool,
    support: CmmaSupport,
    hardware: HardwareProperties,
    problem: MatmulProblem,
    plane_dim: u32,
) -> MatmulSelection {
    let shape = selected_shape(requires_tensor_cores, support, problem);
    let stage = stage_size(
        problem.m as int,
        problem.n as int,
        problem.batches as int,
        streaming_multiprocessors(hardware),
        virtual_tensor_cores(hardware),
        shape.0,
        shape.1,
    );
    let rows = rows_per_plane(stage, shape.0, problem.m as int);
    MatmulSelection {
        tile_shape: MatmulSize { m: shape.0 as u32, n: shape.1 as u32, k: shape.2 as u32 },
        tile_count: MatmulSize { m: rows.1 as u32, n: rows.2 as u32, k: 2 },
        plane_dim,
        rows_per_plane: rows.0 as u32,
    }
}

/// Selects the tile shape and the stage size for a problem on a device.
///
/// `requires_tensor_cores` says whether the tile multiplication runs on tensor cores,
/// `support` which shapes those support, and `hardware` what the device says of its size.
pub fn matmul_selection(
    requires_tensor_cores: bool,
    support: CmmaSupport,
    hardware: HardwareProperties,
    problem: &MatmulProblem,
    plane_dim: u32,
) -> (r: MatmulSelection)
    requires
        selection_inputs_fit(requires_tensor_cores, support, hardware, *problem),
    ensures
        r == selection(requires_tensor_cores, support, hardware, *problem, plane_dim),
{
    let (instruction_m, instruction_n, instruction_k) = find_instruction_shape(
        if requires_tensor_cores {
            Some(support)
        } else {
            None
        },
        problem.m,
        problem.n,
    );

    let num_tensor_cores = match hardware.num_tensor_cores {
        Some(cores) => cores,
        None => NUM_TENSOR_CORES_APPROX,
    };
    let virtual_cores: usize = if num_tensor_cores >= 4 {
        8
    } else {
        (num_tensor_cores * NUM_PLANES_PER_TENSOR_CORES) as usize
    };
    let num_sm = match hardware.num_streaming_multiprocessors {
        Some(count) => count,
        None => NUM_SM_APPROX,
    };

    let stage = find_stage_size(
        problem.m,
        problem.n,
        problem.num_batches(),
        num_sm as usize,
        virtual_cores,
        instruction_m,
        instruction_n,
    );

    let (rows, stage_size_m, stage_size_n) = change_rows_per_plane(stage, instruction_m, problem.m);

    MatmulSelection {
        tile_shape: MatmulSize {
            m: instruction_m as u32,
            n: instruction_n as u32,
            k: instruction_k as u32,
        },
        tile_count: MatmulSize { m: stage_size_m as u32, n: stage_size_n as u32, k: 2 },
        plane_dim,
        rows_per_plane: rows as u32,
    }
}

/// What a kernel is launched with, once the selection is made.
#[derive(Clone, Copy, Debug, PartialEq, Eq, Structural)]
pub struct KernelChoice {
    pub selection: MatmulSelection,
    pub config_input: CompleteStageTiling,
}

/// The choice that goes with a selection: the stage is tiled as the selection says.
pub open spec fn kernel_choice(selection: MatmulSelection) -> KernelChoice {
    KernelChoice {
        selection,
        config_input: CompleteStageTiling {
            tile_shape: selection.tile_shape,
            tile_count: selection.tile_count,
        },
    }
}

/// Selects the kernel for a problem whose inputs and output are concrete tensors: the
/// selection for the problem, and the stage tiling that the launch is configured with.
pub fn select_kernel_concrete(
    requires_tensor_cores: bool,
    support: CmmaSupport,
    hardware: HardwareProperties,
    problem: MatmulProblem,
    plane_dim: u32,
) -> (r: KernelChoice)
    requires
        selection_inputs_fit(requires_tensor_cores, support, hardware, problem),
    ensures
        r == kernel_choice(
            selection(requires_tensor_cores, support, hardware, problem, plane_dim),
        ),
{
    let selection = matmul_selection(requires_tensor_cores, support, hardware, &problem, plane_dim);
    let config_input = CompleteStageTiling {
        tile_shape: selection.tile_shape,
        tile_count: selection.tile_count,
    };
    KernelChoice { selection, config_input }
}

/// Selects the kernel for a problem whose inputs and output are given as launch
/// arguments: the same choice as for concrete tensors.
pub fn select_kernel_virtual(
    requires_tensor_cores: bool,
    support: CmmaSupport,
    hardware: HardwareProperties,
    problem: MatmulProblem,
    plane_dim: u32,
) -> (r: KernelChoice)
    requires
        selection_inputs_fit(requires_tensor_cores, support, hardware, problem),
    ensures
        r == kernel_choice(
            selection(requires_tensor_cores, support, hardware, problem, plane_dim),
        ),
{
    let selection = matmul_selection(requires_tensor_cores, support, hardware, &problem, plane_dim);
    let config_input = CompleteStageTiling {
        tile_shape: selection.tile_shape,
        tile_count: selection.tile_count,
    };
    KernelChoice { selection, config_input }
}

} // verus!
