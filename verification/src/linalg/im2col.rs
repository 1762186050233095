//! Loading the stage of a convolution: which lines each unit moves when all planes load
//! the tiles together, unit after unit, in jumps of one line for every unit.

use vstd::prelude::*;
use crate::linalg::components::TilingDimensions;

verus! {

/// Loads the content of all tiles of the stage using all planes, each unit stepping by
/// the number of elements that all units move at once.
#[derive(Clone, Copy, Debug)]
pub struct SimpleIm2col;

/// One line that a unit moves: where it stands in the stage, in elements; the tile it
/// belongs to and where it stands within that tile; and the line of the stage slice that
/// receives it.
#[derive(Clone, Copy, Debug, PartialEq, Eq, Structural)]
pub struct LineLoad {
    pub unit_position: u32,
    pub nth_tile: u32,
    pub pos_within_tile: u32,
    pub slice_index: u32,
}

/// The number of elements that all units of a cube move at once.
pub open spec fn jump_length(line_size: u32, num_planes: u32, plane_dim: u32) -> int {
    num_planes * plane_dim * line_size
}

/// The line that unit `unit_id` moves in its step `i`.
pub open spec fn line_load(
    tiling: TilingDimensions,
    line_size: u32,
    jump: int,
    unit_id: int,
    i: int,
) -> LineLoad {
    let position = unit_id * line_size + i * jump;
    LineLoad {
        unit_position: position as u32,
        nth_tile: (position / tiling.spec_tile_size()) as u32,
        pos_within_tile: (position % tiling.spec_tile_size()) as u32,
        slice_index: (position / line_size as int) as u32,
    }
}

/// Whether the units can load the stage between them: lines and tiles are not empty, a
/// jump divides the stage, and no position that a unit reaches leaves 32 bits.
pub open spec fn loadable(
    tiling: TilingDimensions,
    line_size: u32,
    num_planes: u32,
    plane_dim: u32,
    unit_pos_x: u32,
    unit_pos_y: u32,
) -> bool {
    let jump = jump_length(line_size, num_planes, plane_dim);
    &&& tiling.fits()
    &&& line_size >= 1
    &&& tiling.spec_tile_size() >= 1
    &&& 1 <= jump <= u32::MAX
    &&& tiling.spec_total_size() % jump == 0
    &&& unit_pos_y * plane_dim + unit_pos_x <= u32::MAX
    &&& (unit_pos_y * plane_dim + unit_pos_x) * line_size + tiling.spec_total_size() <= u32::MAX
}

/// Checks that the units move the whole stage in a whole number of jumps. Where they do
/// not, too much would be loaded, past the end of the stage.
pub fn check_jump_divides_well(num_stage_elements: u32, jump_length: u32)
    requires
        jump_length != 0,
        num_stage_elements % jump_length == 0,
{
}

/// Whether the units move the whole stage in a whole number of jumps.
pub fn jump_divides_well(num_stage_elements: u32, jump_length: u32) -> (r: bool)
    ensures
        r <==> jump_length != 0 && num_stage_elements % jump_length == 0,
{
    jump_length != 0 && num_stage_elements % jump_length == 0
}

impl SimpleIm2col {
    /// The lines that the unit at `(unit_pos_x, unit_pos_y)` moves into the stage slice,
    /// in the order in which it moves them.
    pub fn load_to_slice(
        tiling: TilingDimensions,
        line_size: u32,
        num_planes: u32,
        plane_dim: u32,
        unit_pos_x: u32,
        unit_pos_y: u32,
    ) -> (loads: Vec<LineLoad>)
        requires
            loadable(tiling, line_size, num_planes, plane_dim, unit_pos_x, unit_pos_y),
        ensures
            loads.len() == tiling.spec_total_size() / jump_length(
                line_size,
                num_planes,
                plane_dim,
            ),
            forall|i: int|
                0 <= i < loads.len() ==> #[trigger] loads[i] == line_load(
                    tiling,
                    line_size,
                    jump_length(line_size, num_planes, plane_dim),
                    unit_pos_y * plane_dim + unit_pos_x,
                    i,
                ),
    {
        let num_stage_elements = tiling.total_size();
        assert(num_planes * plane_dim <= num_planes * plane_dim * line_size) by (nonlinear_arith)
            requires
                line_size >= 1,
                num_planes * plane_dim >= 0,
        ;
        assert(num_planes * plane_dim >= 0) by (nonlinear_arith)
            requires
                num_planes >= 0,
                plane_dim >= 0,
        ;
        let total_units = num_planes * plane_dim;
        let jump = total_units * line_size;
        let num_loads_per_unit = num_stage_elements / jump;
        check_jump_divides_well(num_stage_elements, jump);

        assert(unit_pos_y * plane_dim >= 0) by (nonlinear_arith)
            requires
                unit_pos_y >= 0,
                plane_dim >= 0,
        ;
        let unit_id = unit_pos_y * plane_dim + unit_pos_x;
        assert(unit_id * line_size >= 0) by (nonlinear_arith)
            requires
                unit_id >= 0,
                line_size >= 0,
        ;
        let unit_position_base = unit_id * line_size;
        let tile_num_elements = tiling.tile_size();
        proof {
            vstd::arithmetic::div_mod::lemma_fundamental_div_mod(
                num_stage_elements as int,
                jump as int,
            );
        }

        let mut loads: Vec<LineLoad> = Vec::new();
        let mut i: u32 = 0;
        while i < num_loads_per_unit
            invariant
                i <= num_loads_per_unit,
                jump >= 1,
                line_size >= 1,
                tile_num_elements >= 1,
                tile_num_elements == tiling.spec_tile_size(),
                jump * num_loads_per_unit <= num_stage_elements,
                unit_position_base == unit_id * line_size,
                unit_position_base + num_stage_elements <= u32::MAX,
                loads.len() == i,
                forall|k: int|
                    0 <= k < i ==> #[trigger] loads[k] == line_load(
                        tiling,
                        line_size,
                        jump as int,
                        unit_id as int,
                        k,
                    ),
            decreases num_loads_per_unit - i,
        {
            assert(0 <= i * jump && i * jump + jump <= jump * num_loads_per_unit)
                by (nonlinear_arith)
                requires
                    0 <= i < num_loads_per_unit,
                    jump >= 1,
            ;
            let unit_position = unit_position_base + i * jump;
            let nth_tile = unit_position / tile_num_elements;
            let pos_within_tile = unit_position % tile_num_elements;
            loads.push(
                LineLoad {
                    unit_position,
                    nth_tile,
                    pos_within_tile,
                    slice_index: unit_position / line_size,
                },
            );
            i = i + 1;
        }
        loads
    }
}

} // verus!
