//! Loading the tiles of a matrix multiplication into shared memory: the addresses that
//! each unit of a cube reads and writes.
//!
//! A cube is made of planes of 32 units. Each unit reads two lines of the input tensor,
//! eight rows apart within its tile, and writes their first four elements to shared
//! memory. The functions here do for one unit, on vectors in host memory, what the
//! kernel does for every unit at once on the device.

use vstd::prelude::*;

verus! {

/// The number of units of a plane that the address computation is written for.
pub const PLANE_SIZE: u32 = 32;

/// The number of elements of a line that a unit moves.
pub const LANES: usize = 4;

/// The sizes that a kernel is compiled for.
#[derive(Clone, Copy, Debug, PartialEq, Eq, Structural)]
pub struct CmmaConfig {
    pub block_size_m: u32,
    pub block_size_k: u32,
    pub block_size_n: u32,
    pub check_m_bounds: bool,
    pub check_k_bounds: bool,
    pub check_n_bounds: bool,
    pub tile_size: u32,
    pub sm_vec: u32,
    pub lhs_transposed: bool,
    pub rhs_transposed: bool,
    pub unroll: bool,
}

/// The extents of the problem.
#[derive(Clone, Copy, Debug, PartialEq, Eq, Structural)]
pub struct Dimensions {
    pub m: u32,
    pub k: u32,
    pub n: u32,
}

/// Where in the tensors the cube works.
#[derive(Clone, Copy, Debug, PartialEq, Eq, Structural)]
pub struct Offsets {
    pub batch_lhs: u32,
    pub batch_rhs: u32,
    pub batch_out: u32,
    pub cube_row: u32,
    pub cube_col: u32,
    pub k: u32,
}

/// The extra rows of the second of the two lines of a unit: none for the first.
pub open spec fn second_line(second: bool, rows: int) -> int {
    if second {
        rows
    } else {
        0
    }
}

/// The position in the left-hand tensor, in elements, that unit `(x, y)` reads its
/// first or second line from. Plane `y` reads tile `y`, counted along `k` first; within
/// the tile, unit `x` reads row `x / vec` and the line `x % vec` of it.
pub open spec fn lhs_read_pos(
    config: CmmaConfig,
    dims: Dimensions,
    offsets: Offsets,
    vec: u32,
    x: u32,
    y: u32,
    second: bool,
) -> int {
    let stride = dims.k as int;
    let tiles_in_k = config.block_size_k as int / config.tile_size as int;
    let row = x as int / vec as int + second_line(second, PLANE_SIZE as int / vec as int);
    let col = x as int % vec as int;
    let tile_row = y as int / tiles_in_k;
    let tile_col = y as int % tiles_in_k;
    let offset = offsets.batch_lhs + offsets.k + offsets.cube_row * stride;
    offset + tile_row * config.tile_size * stride + tile_col * config.tile_size + row * stride
        + col * vec
}

/// The position in shared memory, in elements, that unit `(x, y)` writes its first or
/// second line of the left-hand tensor to.
pub open spec fn lhs_write_pos(config: CmmaConfig, vec: u32, x: u32, y: u32, second: bool) -> int {
    let stride = config.block_size_m as int;
    let stride_vec = config.block_size_m as int / vec as int;
    let tile_rows = (config.tile_size * config.tile_size) / stride * y;
    let row = x as int / stride_vec + second_line(
        second,
        PLANE_SIZE as int / config.tile_size as int,
    );
    let col = x as int % stride_vec;
    (tile_rows + row) * stride + col * vec
}

/// The position in the right-hand tensor, in elements, that unit `(x, y)` reads its
/// first or second line from. Plane `y` reads tile `y`, counted along `k` first.
pub open spec fn rhs_read_pos(
    config: CmmaConfig,
    dims: Dimensions,
    offsets: Offsets,
    vec: u32,
    x: u32,
    y: u32,
    second: bool,
) -> int {
    let stride = dims.n as int;
    let tiles_in_k = config.block_size_k as int / config.tile_size as int;
    let row = x as int / vec as int + second_line(second, PLANE_SIZE as int / vec as int);
    let col = x as int % vec as int;
    let tile_row = y as int % tiles_in_k;
    let tile_col = y as int / tiles_in_k;
    let offset = offsets.batch_rhs + offsets.k * stride + offsets.cube_col;
    offset + tile_row * config.tile_size * stride + tile_col * config.tile_size + row * stride
        + col * vec
}

/// The position in shared memory, in elements, that unit `(x, y)` writes its first or
/// second line of the right-hand tensor to.
pub open spec fn rhs_write_pos(config: CmmaConfig, vec: u32, x: u32, y: u32, second: bool) -> int {
    let stride = config.block_size_n as int;
    let tile_rows = (config.tile_size * config.tile_size) / stride * y;
    let row = x as int / stride + second_line(second, PLANE_SIZE as int / config.tile_size as int);
    let col = x as int % stride;
    (tile_rows + row) * stride + col * vec
}

/// The first element of the line of `vec` elements that holds position `pos`.
pub open spec fn line_start(pos: int, vec: u32) -> int {
    pos / vec as int * vec
}

/// Shared memory after four elements were moved to position `to` from position `from`
/// of the tensor.
pub open spec fn moved<T>(shared: Seq<T>, to: int, tensor: Seq<T>, from: int) -> Seq<T> {
    Seq::new(
        shared.len(),
        |i: int|
            if to <= i < to + LANES {
                tensor[from + (i - to)]
            } else {
                shared[i]
            },
    )
}

/// Whether a move of four elements stays within the tensor and within shared memory.
pub open spec fn movable(shared_len: int, to: int, tensor_len: int, from: int) -> bool {
    &&& 0 <= to
    &&& to + LANES <= shared_len
    &&& 0 <= from
    &&& from + LANES <= tensor_len
}

/// Whether the sizes are ones that positions can be computed for: nothing is divided by
/// zero, and a line has the four elements that a unit moves.
pub open spec fn sound(config: CmmaConfig, vec: u32, stride: u32) -> bool {
    &&& vec >= LANES
    &&& config.tile_size >= 1
    &&& config.block_size_k >= config.tile_size
    &&& stride >= 1
}

/// Multiplies two 32-bit numbers.
fn widening_mul(a: u32, b: u32) -> (r: u64)
    ensures
        r == a * b,
        r <= 0xffff_fffe_0000_0001,
{
    assert(0 <= a * b <= 0xffff_fffe_0000_0001) by (nonlinear_arith)
        requires
            0 <= a <= 0xffff_ffff,
            0 <= b <= 0xffff_ffff,
    ;
    a as u64 * b as u64
}

/// Multiplies a 64-bit number by a 32-bit number.
fn widening_mul3(a: u64, b: u32) -> (r: u128)
    ensures
        r == a * b,
        r <= 0xffff_ffff_0000_0000_0000_0000,
{
    assert(0 <= a * b <= 0xffff_ffff_0000_0000_0000_0000) by (nonlinear_arith)
        requires
            0 <= a <= 0xffff_ffff_ffff_ffff,
            0 <= b <= 0xffff_ffff,
    ;
    a as u128 * b as u128
}

/// The position that a unit reads a line from: `row` rows and `col` lines into the tile
/// that is `tile_row` tiles down and `tile_col` tiles across from `offset`.
fn read_position(
    offset: u128,
    tile_row: u32,
    tile_col: u32,
    tile_size: u32,
    stride: u32,
    row: u64,
    col: u32,
    vec: u32,
) -> (r: u128)
    requires
        offset <= 0xffff_ffff_0000_0000_0000_0000,
    ensures
        r == offset + tile_row * tile_size * stride + tile_col * tile_size + row * stride + col
            * vec,
{
    offset + widening_mul3(widening_mul(tile_row, tile_size), stride) + widening_mul(
        tile_col,
        tile_size,
    ) as u128 + widening_mul3(row, stride) + widening_mul(col, vec) as u128
}

/// The position that a unit writes a line to: `row` rows below the `tile_rows` rows of
/// the tiles before its own, and `col` lines across; `None` where the position is beyond
/// any memory.
fn write_position(tile_rows: u128, row: u64, stride: u32, col: u32, vec: u32) -> (r: Option<
    u128,
>)
    requires
        tile_rows <= 0xffff_ffff_0000_0000_0000_0000,
    ensures
        match r {
            Some(pos) => pos == (tile_rows + row) * stride + col * vec,
            None => (tile_rows + row) * stride + col * vec > usize::MAX,
        },
{
    let rows: u128 = tile_rows + row as u128;
    match rows.checked_mul(stride as u128) {
        Some(product) => {
            let across = widening_mul(col, vec) as u128;
            product.checked_add(across)
        },
        None => None,
    }
}

/// Where unit `(x, y)` reads its two lines of the left-hand tensor, and where it writes
/// them: reading position and writing position of the first line, then of the second.
pub open spec fn lhs_moves(
    config: CmmaConfig,
    dims: Dimensions,
    offsets: Offsets,
    vec: u32,
    x: u32,
    y: u32,
) -> (int, int, int, int) {
    (
        line_start(lhs_read_pos(config, dims, offsets, vec, x, y, false), vec),
        lhs_write_pos(config, vec, x, y, false),
        line_start(lhs_read_pos(config, dims, offsets, vec, x, y, true), vec),
        lhs_write_pos(config, vec, x, y, true),
    )
}

/// Where unit `(x, y)` reads its two lines of the right-hand tensor, and where it writes
/// them.
pub open spec fn rhs_moves(
    config: CmmaConfig,
    dims: Dimensions,
    offsets: Offsets,
    vec: u32,
    x: u32,
    y: u32,
) -> (int, int, int, int) {
    (
        line_start(rhs_read_pos(config, dims, offsets, vec, x, y, false), vec),
        rhs_write_pos(config, vec, x, y, false),
        line_start(rhs_read_pos(config, dims, offsets, vec, x, y, true), vec),
        rhs_write_pos(config, vec, x, y, true),
    )
}

/// Whether both lines of a unit can be moved: the sizes are sound and both moves stay
/// within the tensor and within shared memory.
pub open spec fn both_movable(
    is_sound: bool,
    moves: (int, int, int, int),
    tensor_len: int,
    shared_len: int,
) -> bool {
    &&& is_sound
    &&& movable(shared_len, moves.1, tensor_len, moves.0)
    &&& movable(shared_len, moves.3, tensor_len, moves.2)
}

/// Shared memory after both lines of a unit were moved, the first line first.
pub open spec fn both_moved<T>(shared: Seq<T>, tensor: Seq<T>, moves: (int, int, int, int)) -> Seq<
    T,
> {
    moved(moved(shared, moves.1, tensor, moves.0), moves.3, tensor, moves.2)
}

/// Brings a position down to `usize`, where it is one that a line can be moved at.
fn position_within(pos: u128, len: usize) -> (r: Option<usize>)
    ensures
        match r {
            Some(p) => p == pos && p + LANES <= len,
            None => pos + LANES > len,
        },
{
    if len >= LANES && pos <= (len - LANES) as u128 {
        Some(pos as usize)
    } else {
        None
    }
}

/// The first element of the line of `vec` elements that holds position `pos`.
fn line_start_of(pos: u128, vec: u32) -> (r: u128)
    requires
        vec >= 1,
    ensures
        r == line_start(pos as int, vec),
        r <= pos,
{
    proof {
        vstd::arithmetic::div_mod::lemma_fundamental_div_mod(pos as int, vec as int);
        assert(pos as int / vec as int * vec == vec * (pos as int / vec as int))
            by (nonlinear_arith);
    }
    let r = pos - pos % (vec as u128);
    r
}

/// Moves four elements from position `from` of the tensor to position `to` of shared
/// memory.
fn move_line<T: Copy>(shared: &mut Vec<T>, to: usize, tensor: &Vec<T>, from: usize)
    requires
        movable(old(shared).len() as int, to as int, tensor.len() as int, from as int),
    ensures
        final(shared)@ == moved(old(shared)@, to as int, tensor@, from as int),
{
    let ghost before = shared@;
    let mut i: usize = 0;
    while i < LANES
        invariant
            i <= LANES,
            shared.len() == before.len(),
            to + LANES <= shared.len(),
            from + LANES <= tensor.len(),
            forall|k: int| to <= k < to + i ==> #[trigger] shared[k] == tensor[from + (k - to)],
            forall|k: int|
                0 <= k < shared.len() && !(to <= k < to + i) ==> #[trigger] shared[k] == before[k],
        decreases LANES - i,
    {
        shared[to + i] = tensor[from + i];
        i = i + 1;
    }
}

/// Moves the two lines of a unit, where both can be moved.
fn move_both<T: Copy>(
    shared: &mut Vec<T>,
    tensor: &Vec<T>,
    first_from: u128,
    first_to: Option<u128>,
    second_from: u128,
    second_to: Option<u128>,
) -> (done: bool)
    ensures
        final(shared)@.len() == old(shared)@.len(),
        done <==> (first_to is Some && second_to is Some && movable(
            old(shared).len() as int,
            first_to->Some_0 as int,
            tensor.len() as int,
            first_from as int,
        ) && movable(
            old(shared).len() as int,
            second_to->Some_0 as int,
            tensor.len() as int,
            second_from as int,
        )),
        done ==> final(shared)@ == moved(
            moved(old(shared)@, first_to->Some_0 as int, tensor@, first_from as int),
            second_to->Some_0 as int,
            tensor@,
            second_from as int,
        ),
        !done ==> final(shared)@ == old(shared)@,
{
    let (to_0, to_1) = match (first_to, second_to) {
        (Some(to_0), Some(to_1)) => (to_0, to_1),
        _ => {
            return false;
        },
    };
    let from_0 = position_within(first_from, tensor.len());
    let from_1 = position_within(second_from, tensor.len());
    let to_0 = position_within(to_0, shared.len());
    let to_1 = position_within(to_1, shared.len());
    match (from_0, to_0, from_1, to_1) {
        (Some(from_0), Some(to_0), Some(from_1), Some(to_1)) => {
            move_line(shared, to_0, tensor, from_0);
            move_line(shared, to_1, tensor, from_1);
            true
        },
        _ => false,
    }
}

/// Does for unit `(unit_pos_x, unit_pos_y)` what the kernel does to load the left-hand
/// tile: moves the first four elements of two lines of `lhs`, a tensor in lines of
/// `vectorization` elements, into `shared_lhs`. Nothing is moved, and `false` comes
/// back, where the sizes are unsound or a move would leave the tensor or shared memory.
pub fn load_lhs<T: Copy>(
    lhs: &Vec<T>,
    vectorization: u32,
    offsets: Offsets,
    shared_lhs: &mut Vec<T>,
    config: CmmaConfig,
    dims: Dimensions,
    unit_pos_x: u32,
    unit_pos_y: u32,
) -> (done: bool)
    ensures
        done <==> both_movable(
            sound(config, vectorization, config.block_size_m) && config.block_size_m
                >= vectorization,
            lhs_moves(config, dims, offsets, vectorization, unit_pos_x, unit_pos_y),
            lhs.len() as int,
            old(shared_lhs).len() as int,
        ),
        done ==> final(shared_lhs)@ == both_moved(
            old(shared_lhs)@,
            lhs@,
            lhs_moves(config, dims, offsets, vectorization, unit_pos_x, unit_pos_y),
        ),
        !done ==> final(shared_lhs)@ == old(shared_lhs)@,
{
    let tile_size = config.tile_size;
    let vec = vectorization;
    if vec < 4 || tile_size == 0 || config.block_size_k < tile_size || config.block_size_m < vec {
        return false;
    }
    let stride = dims.k;
    let tiles_in_k = config.block_size_k / tile_size;
    proof {
        vstd::arithmetic::div_mod::lemma_div_non_zero(
            config.block_size_k as int,
            tile_size as int,
        );
        vstd::arithmetic::div_mod::lemma_div_non_zero(config.block_size_m as int, vec as int);
    }
    let sm_stride = config.block_size_m;
    let sm_stride_vec = config.block_size_m / vec;

    let read_row_0 = (unit_pos_x / vec) as u64;
    let read_row_1 = read_row_0 + (PLANE_SIZE / vec) as u64;
    let read_col = unit_pos_x % vec;
    let tile_row = unit_pos_y / tiles_in_k;
    let tile_col = unit_pos_y % tiles_in_k;

    let offset = offsets.batch_lhs as u128 + offsets.k as u128 + widening_mul(
        offsets.cube_row,
        stride,
    ) as u128;
    let read_pos_0 = read_position(
        offset,
        tile_row,
        tile_col,
        tile_size,
        stride,
        read_row_0,
        read_col,
        vec,
    );
    let read_pos_1 = read_position(
        offset,
        tile_row,
        tile_col,
        tile_size,
        stride,
        read_row_1,
        read_col,
        vec,
    );

    let tile_rows = widening_mul3(widening_mul(tile_size, tile_size) / (sm_stride as u64), unit_pos_y);
    let write_row_0 = (unit_pos_x / sm_stride_vec) as u64;
    let write_row_1 = write_row_0 + (PLANE_SIZE / tile_size) as u64;
    let write_col = unit_pos_x % sm_stride_vec;
    let write_pos_0 = write_position(tile_rows, write_row_0, sm_stride, write_col, vec);
    let write_pos_1 = write_position(tile_rows, write_row_1, sm_stride, write_col, vec);

    move_both(
        shared_lhs,
        lhs,
        line_start_of(read_pos_0, vec),
        write_pos_0,
        line_start_of(read_pos_1, vec),
        write_pos_1,
    )
}

/// Does for unit `(unit_pos_x, unit_pos_y)` what the kernel does to load the right-hand
/// tile: moves the first four elements of two lines of `rhs`, a tensor in lines of
/// `vectorization` elements, into `shared_rhs`. Nothing is moved, and `false` comes
/// back, where the sizes are unsound or a move would leave the tensor or shared memory.
pub fn load_rhs<T: Copy>(
    rhs: &Vec<T>,
    vectorization: u32,
    offsets: Offsets,
    shared_rhs: &mut Vec<T>,
    config: CmmaConfig,
    dims: Dimensions,
    unit_pos_x: u32,
    unit_pos_y: u32,
) -> (done: bool)
    ensures
        done <==> both_movable(
            sound(config, vectorization, config.block_size_n),
            rhs_moves(config, dims, offsets, vectorization, unit_pos_x, unit_pos_y),
            rhs.len() as int,
            old(shared_rhs).len() as int,
        ),
        done ==> final(shared_rhs)@ == both_moved(
            old(shared_rhs)@,
            rhs@,
            rhs_moves(config, dims, offsets, vectorization, unit_pos_x, unit_pos_y),
        ),
        !done ==> final(shared_rhs)@ == old(shared_rhs)@,
{
    let tile_size = config.tile_size;
    let vec = vectorization;
    if vec < 4 || tile_size == 0 || config.block_size_k < tile_size || config.block_size_n == 0 {
        return false;
    }
    let stride = dims.n;
    let tiles_in_k = config.block_size_k / tile_size;
    proof {
        vstd::arithmetic::div_mod::lemma_div_non_zero(
            config.block_size_k as int,
            tile_size as int,
        );
    }
    let sm_stride = config.block_size_n;

    let read_row_0 = (unit_pos_x / vec) as u64;
    let read_row_1 = read_row_0 + (PLANE_SIZE / vec) as u64;
    let read_col = unit_pos_x % vec;
    let tile_row = unit_pos_y % tiles_in_k;
    let tile_col = unit_pos_y / tiles_in_k;

    let offset = offsets.batch_rhs as u128 + widening_mul(offsets.k, stride) as u128
        + offsets.cube_col as u128;
    let read_pos_0 = read_position(
        offset,
        tile_row,
        tile_col,
        tile_size,
        stride,
        read_row_0,
        read_col,
        vec,
    );
    let read_pos_1 = read_position(
        offset,
        tile_row,
        tile_col,
        tile_size,
        stride,
        read_row_1,
        read_col,
        vec,
    );

    let tile_rows = widening_mul3(widening_mul(tile_size, tile_size) / (sm_stride as u64), unit_pos_y);
    let write_row_0 = (unit_pos_x / sm_stride) as u64;
    let write_row_1 = write_row_0 + (PLANE_SIZE / tile_size) as u64;
    let write_col = unit_pos_x % sm_stride;
    let write_pos_0 = write_position(tile_rows, write_row_0, sm_stride, write_col, vec);
    let write_pos_1 = write_position(tile_rows, write_row_1, sm_stride, write_col, vec);

    move_both(
        shared_rhs,
        rhs,
        line_start_of(read_pos_0, vec),
        write_pos_0,
        line_start_of(read_pos_1, vec),
        write_pos_1,
    )
}

/// Does for one unit what the kernel does to load both tiles: the left-hand one, then the
/// right-hand one, each into its own shared memory. What comes back says of each whether
/// it was loaded.
pub fn load_to_shared_memories<T: Copy>(
    lhs: &Vec<T>,
    rhs: &Vec<T>,
    vectorization: u32,
    offsets: Offsets,
    shared_lhs: &mut Vec<T>,
    shared_rhs: &mut Vec<T>,
    config: CmmaConfig,
    dims: Dimensions,
    unit_pos_x: u32,
    unit_pos_y: u32,
) -> (done: (bool, bool))
    ensures
        done.0 <==> both_movable(
            sound(config, vectorization, config.block_size_m) && config.block_size_m
                >= vectorization,
            lhs_moves(config, dims, offsets, vectorization, unit_pos_x, unit_pos_y),
            lhs.len() as int,
            old(shared_lhs).len() as int,
        ),
        done.0 ==> final(shared_lhs)@ == both_moved(
            old(shared_lhs)@,
            lhs@,
            lhs_moves(config, dims, offsets, vectorization, unit_pos_x, unit_pos_y),
        ),
        !done.0 ==> final(shared_lhs)@ == old(shared_lhs)@,
        done.1 <==> both_movable(
            sound(config, vectorization, config.block_size_n),
            rhs_moves(config, dims, offsets, vectorization, unit_pos_x, unit_pos_y),
            rhs.len() as int,
            old(shared_rhs).len() as int,
        ),
        done.1 ==> final(shared_rhs)@ == both_moved(
            old(shared_rhs)@,
            rhs@,
            rhs_moves(config, dims, offsets, vectorization, unit_pos_x, unit_pos_y),
        ),
        !done.1 ==> final(shared_rhs)@ == old(shared_rhs)@,
{
    let lhs_done = load_lhs(
        lhs,
        vectorization,
        offsets,
        shared_lhs,
        config,
        dims,
        unit_pos_x,
        unit_pos_y,
    );
    let rhs_done = load_rhs(
        rhs,
        vectorization,
        offsets,
        shared_rhs,
        config,
        dims,
        unit_pos_x,
        unit_pos_y,
    );
    (lhs_done, rhs_done)
}

} // verus!
