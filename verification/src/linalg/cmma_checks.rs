//! Running the tile loads for every unit of a cube, on the host, and checking what
//! shared memory then holds against what is expected of it.

use vstd::prelude::*;
use crate::linalg::cmma::{
    both_movable, both_moved, lhs_moves, load_lhs, load_rhs, rhs_moves, sound, CmmaConfig,
    Dimensions, Offsets,
};
use crate::linalg::components::CubeDim;

verus! {

/// The number of elements of a line of the tensors that the checks load from.
pub const CHECK_VECTORIZATION: u32 = 4;

/// The configuration that the checks run with: blocks of 64 by 32 by 64 in tiles of 16.
pub open spec fn spec_check_config() -> CmmaConfig {
    CmmaConfig {
        block_size_m: 64,
        block_size_k: 32,
        block_size_n: 64,
        check_m_bounds: false,
        check_k_bounds: false,
        check_n_bounds: false,
        tile_size: 16,
        sm_vec: 4,
        lhs_transposed: false,
        rhs_transposed: false,
        unroll: false,
    }
}

/// The configuration that the checks run with.
#[verifier::when_used_as_spec(spec_check_config)]
pub fn check_config() -> (config: CmmaConfig)
    ensures
        config == spec_check_config(),
{
    CmmaConfig {
        block_size_m: 64,
        block_size_k: 32,
        block_size_n: 64,
        check_m_bounds: false,
        check_k_bounds: false,
        check_n_bounds: false,
        tile_size: 16,
        sm_vec: 4,
        lhs_transposed: false,
        rhs_transposed: false,
        unroll: false,
    }
}

/// The offsets of a cube at the origin, `k_offset` along `k`.
pub open spec fn check_offsets(k_offset: u32) -> Offsets {
    Offsets { batch_lhs: 0, batch_rhs: 0, batch_out: 0, cube_row: 0, cube_col: 0, k: k_offset }
}

/// The extents that the checks run with.
pub open spec fn check_dims() -> Dimensions {
    Dimensions { m: 64, k: 64, n: 64 }
}

/// A tensor of `rows` by `cols` elements in which every element holds its own position.
pub fn range_tensor(rows: u32, cols: u32) -> (tensor: Vec<u32>)
    requires
        rows * cols <= u32::MAX,
    ensures
        tensor.len() == rows * cols,
        forall|i: int| 0 <= i < tensor.len() ==> #[trigger] tensor[i] == i,
{
    let n = rows * cols;
    let mut tensor: Vec<u32> = Vec::new();
    let mut i: u32 = 0;
    while i < n
        invariant
            i <= n,
            tensor.len() == i,
            forall|k: int| 0 <= k < i ==> #[trigger] tensor[k] == k,
        decreases n - i,
    {
        tensor.push(i);
        i = i + 1;
    }
    tensor
}

/// A tensor of `rows` by `cols` zeros.
pub fn create_empty(rows: u32, cols: u32) -> (tensor: Vec<u32>)
    requires
        rows * cols <= u32::MAX,
    ensures
        tensor.len() == rows * cols,
        forall|i: int| 0 <= i < tensor.len() ==> #[trigger] tensor[i] == 0,
{
    let n = rows * cols;
    let mut tensor: Vec<u32> = Vec::new();
    let mut i: u32 = 0;
    while i < n
        invariant
            i <= n,
            tensor.len() == i,
            forall|k: int| 0 <= k < i ==> #[trigger] tensor[k] == 0,
        decreases n - i,
    {
        tensor.push(0);
        i = i + 1;
    }
    tensor
}

/// What one unit makes of shared memory when it loads the left-hand tile: both of its
/// lines are moved, or nothing where they cannot be.
pub open spec fn after_lhs_unit(
    shared: Seq<u32>,
    tensor: Seq<u32>,
    k_offset: u32,
    config: CmmaConfig,
    x: u32,
    y: u32,
) -> Seq<u32> {
    let moves = lhs_moves(
        config,
        check_dims(),
        check_offsets(k_offset),
        CHECK_VECTORIZATION,
        x,
        y,
    );
    if both_movable(
        sound(config, CHECK_VECTORIZATION, config.block_size_m) && config.block_size_m
            >= CHECK_VECTORIZATION,
        moves,
        tensor.len() as int,
        shared.len() as int,
    ) {
        both_moved(shared, tensor, moves)
    } else {
        shared
    }
}

/// What one unit makes of shared memory when it loads the right-hand tile.
pub open spec fn after_rhs_unit(
    shared: Seq<u32>,
    tensor: Seq<u32>,
    k_offset: u32,
    config: CmmaConfig,
    x: u32,
    y: u32,
) -> Seq<u32> {
    let moves = rhs_moves(
        config,
        check_dims(),
        check_offsets(k_offset),
        CHECK_VECTORIZATION,
        x,
        y,
    );
    if both_movable(
        sound(config, CHECK_VECTORIZATION, config.block_size_n),
        moves,
        tensor.len() as int,
        shared.len() as int,
    ) {
        both_moved(shared, tensor, moves)
    } else {
        shared
    }
}

/// Shared memory after the first `units` units of a cube `width` units wide have loaded
/// their lines, one after the other, row of units by row of units.
pub open spec fn after_units(
    lhs: bool,
    shared: Seq<u32>,
    tensor: Seq<u32>,
    k_offset: u32,
    config: CmmaConfig,
    width: u32,
    units: nat,
) -> Seq<u32>
    decreases units,
{
    if units == 0 || width == 0 {
        shared
    } else {
        let before = after_units(
            lhs,
            shared,
            tensor,
            k_offset,
            config,
            width,
            (units - 1) as nat,
        );
        let x = ((units - 1) % width as int) as u32;
        let y = ((units - 1) / width as int) as u32;
        if lhs {
            after_lhs_unit(before, tensor, k_offset, config, x, y)
        } else {
            after_rhs_unit(before, tensor, k_offset, config, x, y)
        }
    }
}

/// Loads the left-hand tile as the unit at `(unit_pos_x, unit_pos_y)` does, from a
/// tensor of 64 by 64 elements in lines of four, with shared memory standing in
/// `lhs_sm_arr`.
pub fn load_lhs_test(
    lhs_tensor: &Vec<u32>,
    lhs_sm_arr: &mut Vec<u32>,
    k_offset: u32,
    config: CmmaConfig,
    unit_pos_x: u32,
    unit_pos_y: u32,
)
    ensures
        final(lhs_sm_arr)@ == after_lhs_unit(
            old(lhs_sm_arr)@,
            lhs_tensor@,
            k_offset,
            config,
            unit_pos_x,
            unit_pos_y,
        ),
{
    let offsets = Offsets {
        batch_lhs: 0,
        batch_rhs: 0,
        batch_out: 0,
        cube_row: 0,
        cube_col: 0,
        k: k_offset,
    };
    let dims = Dimensions { m: 64, k: 64, n: 64 };
    let _ = load_lhs(
        lhs_tensor,
        CHECK_VECTORIZATION,
        offsets,
        lhs_sm_arr,
        config,
        dims,
        unit_pos_x,
        unit_pos_y,
    );
}

/// Loads the right-hand tile as the unit at `(unit_pos_x, unit_pos_y)` does, from a
/// tensor of 64 by 64 elements in lines of four, with shared memory standing in
/// `rhs_sm_arr`.
pub fn load_rhs_test(
    rhs_tensor: &Vec<u32>,
    rhs_sm_arr: &mut Vec<u32>,
    k_offset: u32,
    config: CmmaConfig,
    unit_pos_x: u32,
    unit_pos_y: u32,
)
    ensures
        final(rhs_sm_arr)@ == after_rhs_unit(
            old(rhs_sm_arr)@,
            rhs_tensor@,
            k_offset,
            config,
            unit_pos_x,
            unit_pos_y,
        ),
{
    let offsets = Offsets {
        batch_lhs: 0,
        batch_rhs: 0,
        batch_out: 0,
        cube_row: 0,
        cube_col: 0,
        k: k_offset,
    };
    let dims = Dimensions { m: 64, k: 64, n: 64 };
    let _ = load_rhs(
        rhs_tensor,
        CHECK_VECTORIZATION,
        offsets,
        rhs_sm_arr,
        config,
        dims,
        unit_pos_x,
        unit_pos_y,
    );
}

/// Runs a load for every unit of a cube of `cube_dim.x` by `cube_dim.y` units.
pub fn launch(
    lhs: bool,
    cube_dim: CubeDim,
    tensor: &Vec<u32>,
    shared: &mut Vec<u32>,
    k_offset: u32,
    config: CmmaConfig,
)
    ensures
        final(shared)@ == after_units(
            lhs,
            old(shared)@,
            tensor@,
            k_offset,
            config,
            cube_dim.x,
            (cube_dim.x * cube_dim.y) as nat,
        ),
{
    if cube_dim.x == 0 {
        assert(cube_dim.x * cube_dim.y == 0) by (nonlinear_arith)
            requires
                cube_dim.x == 0,
        ;
        return ;
    }
    let ghost before = shared@;
    let width = cube_dim.x;
    assert(0 <= width * cube_dim.y <= 0xffff_fffe_0000_0001) by (nonlinear_arith)
        requires
            0 <= width <= 0xffff_ffff,
            0 <= cube_dim.y <= 0xffff_ffff,
    ;
    let total: u64 = width as u64 * cube_dim.y as u64;
    let mut unit: u64 = 0;
    while unit < total
        invariant
            unit <= total,
            width >= 1,
            total == width * cube_dim.y,
            shared@ == after_units(lhs, before, tensor@, k_offset, config, width, unit as nat),
        decreases total - unit,
    {
        proof {
            vstd::arithmetic::div_mod::lemma_multiply_divide_lt(
                unit as int,
                width as int,
                cube_dim.y as int,
            );
        }
        let x = (unit % width as u64) as u32;
        let y = (unit / width as u64) as u32;
        if lhs {
            load_lhs_test(tensor, shared, k_offset, config, x, y);
        } else {
            load_rhs_test(tensor, shared, k_offset, config, x, y);
        }
        unit = unit + 1;
    }
}

/// Whether `actual` holds, from position `start` on, the values of `expected`.
pub fn assert_equals_range(actual: &Vec<u32>, expected: &Vec<u32>, start: usize) -> (same: bool)
    ensures
        same <==> start + expected.len() <= actual.len() && actual@.subrange(
            start as int,
            start + expected.len(),
        ) == expected@,
{
    if start > actual.len() || expected.len() > actual.len() - start {
        return false;
    }
    let mut i: usize = 0;
    while i < expected.len()
        invariant
            i <= expected.len(),
            start + expected.len() <= actual.len(),
            forall|k: int| 0 <= k < i ==> #[trigger] actual[start + k] == expected[k],
        decreases expected.len() - i,
    {
        if actual[start + i] != expected[i] {
            assert(actual@.subrange(start as int, start + expected.len())[i as int]
                != expected@[i as int]);
            return false;
        }
        i = i + 1;
    }
    assert forall|k: int| 0 <= k < expected.len() implies actual@.subrange(
        start as int,
        start + expected.len(),
    )[k] == expected@[k] by {
        assert(actual[start + k] == expected[k]);
    }
    assert(actual@.subrange(start as int, start + expected.len()) =~= expected@);
    true
}

/// What shared memory of 32 by 64 zeros holds after a cube of `width` by `height` units
/// has loaded a tile of the tensor of 64 by 64 elements that hold their own positions.
pub open spec fn checked_memory(lhs: bool, width: u32, height: u32, k_offset: u32) -> Seq<u32> {
    after_units(
        lhs,
        Seq::new(2048, |i: int| 0u32),
        Seq::new(4096, |i: int| i as u32),
        k_offset,
        check_config(),
        width,
        (width * height) as nat,
    )
}

/// Whether the window of `expected.len()` values from position `start` of the checked
/// memory holds the values of `expected`.
pub open spec fn window_holds(memory: Seq<u32>, expected: Seq<u32>, start: int) -> bool {
    start + expected.len() <= memory.len() && memory.subrange(start, start + expected.len())
        == expected
}

/// Runs one check: a cube of `width` by `height` units loads from the range tensor into
/// empty shared memory, and the window from `start` is compared with `expected`.
pub fn run_check(
    lhs: bool,
    width: u32,
    height: u32,
    k_offset: u32,
    expected: &Vec<u32>,
    start: usize,
) -> (passed: bool)
    ensures
        passed <==> window_holds(
            checked_memory(lhs, width, height, k_offset),
            expected@,
            start as int,
        ),
{
    let tensor = range_tensor(64, 64);
    let mut shared = create_empty(32, 64);
    assert(tensor@ =~= Seq::new(4096, |i: int| i as u32));
    assert(shared@ =~= Seq::new(2048, |i: int| 0u32));
    let cube_dim = CubeDim::new(width, height, 1);
    launch(lhs, cube_dim, &tensor, &mut shared, k_offset, check_config());
    assert_equals_range(&shared, expected, start)
}

/// One unit loads the left-hand tile; the first 256 values are compared.
pub fn load_shared_memory_lhs_unit_test(expected: &Vec<u32>) -> (passed: bool)
    ensures
        passed <==> window_holds(checked_memory(true, 1, 1, 0), expected@, 0),
{
    run_check(true, 1, 1, 0, expected, 0)
}

/// One unit loads the right-hand tile; the first 256 values are compared.
pub fn load_shared_memory_rhs_unit_test(expected: &Vec<u32>) -> (passed: bool)
    ensures
        passed <==> window_holds(checked_memory(false, 1, 1, 0), expected@, 0),
{
    run_check(false, 1, 1, 0, expected, 0)
}

/// One plane loads the left-hand tile; the first 256 values are compared.
pub fn load_shared_memory_lhs_warp_test(expected: &Vec<u32>) -> (passed: bool)
    ensures
        passed <==> window_holds(checked_memory(true, 32, 1, 0), expected@, 0),
{
    run_check(true, 32, 1, 0, expected, 0)
}

/// One plane loads the right-hand tile; the first 256 values are compared.
pub fn load_shared_memory_rhs_warp_test(expected: &Vec<u32>) -> (passed: bool)
    ensures
        passed <==> window_holds(checked_memory(false, 32, 1, 0), expected@, 0),
{
    run_check(false, 32, 1, 0, expected, 0)
}

/// Two planes load the left-hand tile; the values that the second wrote are compared.
pub fn load_shared_memory_lhs_second_warp_test(expected: &Vec<u32>) -> (passed: bool)
    ensures
        passed <==> window_holds(checked_memory(true, 32, 2, 0), expected@, 256),
{
    run_check(true, 32, 2, 0, expected, 256)
}

/// Two planes load the right-hand tile; the values that the second wrote are compared.
pub fn load_shared_memory_rhs_second_warp_test(expected: &Vec<u32>) -> (passed: bool)
    ensures
        passed <==> window_holds(checked_memory(false, 32, 2, 0), expected@, 256),
{
    run_check(false, 32, 2, 0, expected, 256)
}

/// Three planes load the left-hand tile; the values that the third wrote are compared.
pub fn load_shared_memory_lhs_third_warp_test(expected: &Vec<u32>) -> (passed: bool)
    ensures
        passed <==> window_holds(checked_memory(true, 32, 3, 0), expected@, 512),
{
    run_check(true, 32, 3, 0, expected, 512)
}

/// Three planes load the right-hand tile; the values that the third wrote are compared.
pub fn load_shared_memory_rhs_third_warp_test(expected: &Vec<u32>) -> (passed: bool)
    ensures
        passed <==> window_holds(checked_memory(false, 32, 3, 0), expected@, 512),
{
    run_check(false, 32, 3, 0, expected, 512)
}

/// One plane loads the left-hand tile 32 elements into `k`; the first 256 values are
/// compared.
pub fn load_shared_memory_lhs_k_offset_test(expected: &Vec<u32>) -> (passed: bool)
    ensures
        passed <==> window_holds(checked_memory(true, 32, 1, 32), expected@, 0),
{
    run_check(true, 32, 1, 32, expected, 0)
}

/// One plane loads the right-hand tile 32 elements into `k`; the first 256 values are
/// compared.
pub fn load_shared_memory_rhs_k_offset_test(expected: &Vec<u32>) -> (passed: bool)
    ensures
        passed <==> window_holds(checked_memory(false, 32, 1, 32), expected@, 0),
{
    run_check(false, 32, 1, 32, expected, 0)
}

} // verus!
