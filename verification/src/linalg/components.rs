//! The sizes and choices that describe one matrix multiplication.

use vstd::prelude::*;

verus! {

/// The three extents of a matrix multiplication, or of a tile of one.
#[derive(Clone, Copy, Debug, Hash, PartialEq, Eq, Structural)]
pub struct MatmulSize {
    pub m: u32,
    pub n: u32,
    pub k: u32,
}

/// How a matrix multiplication is cut up: the shape of one tile, the number of tiles in
/// a stage, the size of a plane and the number of tile rows that a plane computes.
#[derive(Clone, Copy, Debug, PartialEq, Eq, Structural)]
pub struct MatmulSelection {
    pub tile_shape: MatmulSize,
    pub tile_count: MatmulSize,
    pub plane_dim: u32,
    pub rows_per_plane: u32,
}

/// The problem to solve: `batches` products of an `m` by `k` and a `k` by `n` matrix.
#[derive(Clone, Copy, Debug, PartialEq, Eq, Structural)]
pub struct MatmulProblem {
    pub m: usize,
    pub n: usize,
    pub k: usize,
    pub batches: usize,
}

impl MatmulProblem {
    /// The number of products.
    pub fn num_batches(&self) -> (r: usize)
        ensures
            r == self.batches,
    {
        self.batches
    }
}

/// The tiling of a stage that goes with a selection.
#[derive(Clone, Copy, Debug, PartialEq, Eq, Structural)]
pub struct CompleteStageTiling {
    pub tile_shape: MatmulSize,
    pub tile_count: MatmulSize,
}

/// One of the three matrices of a product.
#[derive(Clone, Copy, Debug, Hash, PartialEq, Eq, Structural)]
pub enum Ident {
    Lhs,
    Rhs,
    Out,
}

/// One of the two matrices that are read.
#[derive(Clone, Copy, Debug, Hash, PartialEq, Eq, Structural)]
pub enum InputIdent {
    Lhs,
    Rhs,
}

impl InputIdent {
    /// The same matrix, among all three.
    pub open spec fn spec_as_ident(&self) -> Ident {
        match *self {
            InputIdent::Lhs => Ident::Lhs,
            InputIdent::Rhs => Ident::Rhs,
        }
    }

    /// The same matrix, among all three.
    #[verifier::when_used_as_spec(spec_as_ident)]
    pub fn as_ident(&self) -> (r: Ident)
        ensures
            r == self.spec_as_ident(),
    {
        match self {
            InputIdent::Lhs => Ident::Lhs,
            InputIdent::Rhs => Ident::Rhs,
        }
    }
}

/// The order in which a matrix lies in memory.
#[derive(Clone, Copy, Debug, Hash, PartialEq, Eq, Structural)]
pub enum MatrixLayout {
    RowMajor,
    ColMajor,
}

/// The tiles of a stage: the shape of one tile and the number of tiles each way.
#[derive(Clone, Copy, Debug, Hash, PartialEq, Eq, Structural)]
pub struct TilingDimensions {
    pub tile_shape_row: u32,
    pub tile_shape_col: u32,
    pub tile_count_row: u32,
    pub tile_count_col: u32,
}

impl TilingDimensions {
    /// The number of rows of the stage.
    pub open spec fn spec_total_row(&self) -> int {
        self.tile_count_row * self.tile_shape_row
    }

    /// The number of columns of the stage.
    pub open spec fn spec_total_col(&self) -> int {
        self.tile_count_col * self.tile_shape_col
    }

    /// The number of elements of one tile.
    pub open spec fn spec_tile_size(&self) -> int {
        self.tile_shape_row * self.tile_shape_col
    }

    /// The number of elements of the stage.
    pub open spec fn spec_total_size(&self) -> int {
        self.spec_total_row() * self.spec_total_col()
    }

    /// Whether the stage has no more elements than a 32-bit count can hold.
    pub open spec fn fits(&self) -> bool {
        &&& self.spec_total_row() <= u32::MAX
        &&& self.spec_total_col() <= u32::MAX
        &&& self.spec_tile_size() <= u32::MAX
        &&& self.spec_total_size() <= u32::MAX
    }

    /// The number of rows of the stage.
    pub fn total_row(&self) -> (r: u32)
        requires
            self.fits(),
        ensures
            r == self.spec_total_row(),
    {
        self.tile_count_row * self.tile_shape_row
    }

    /// The number of columns of the stage.
    pub fn total_col(&self) -> (r: u32)
        requires
            self.fits(),
        ensures
            r == self.spec_total_col(),
    {
        self.tile_count_col * self.tile_shape_col
    }

    /// The number of elements of one tile.
    pub fn tile_size(&self) -> (r: u32)
        requires
            self.fits(),
        ensures
            r == self.spec_tile_size(),
    {
        self.tile_shape_row * self.tile_shape_col
    }

    /// The number of elements of the stage.
    pub fn total_size(&self) -> (r: u32)
        requires
            self.fits(),
        ensures
            r == self.spec_total_size(),
    {
        self.total_row() * self.total_col()
    }
}

/// The three extents of a cube, in units.
#[derive(Clone, Copy, Debug, Hash, PartialEq, Eq, Structural)]
pub struct CubeDim {
    pub x: u32,
    pub y: u32,
    pub z: u32,
}

impl CubeDim {
    /// A cube of `x` by `y` by `z` units.
    pub fn new(x: u32, y: u32, z: u32) -> (r: CubeDim)
        ensures
            r == (CubeDim { x, y, z }),
    {
        CubeDim { x, y, z }
    }
}

/// `a` divided by `b`, rounded up.
pub open spec fn div_ceil(a: int, b: int) -> int {
    (a + b - 1) / b
}

} // verus!
