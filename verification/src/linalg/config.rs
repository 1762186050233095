//! The configuration of a matrix multiplication at the global level, above the
//! configuration of its stages.

use vstd::prelude::*;
use crate::linalg::components::{Ident, MatrixLayout, TilingDimensions};

verus! {

/// Whether the work of a loading job is laid out before the kernel starts.
pub const PRECOMPUTE_JOB: bool = false;

/// What is settled of one matrix at the level of a stage.
#[derive(Clone, Copy, Debug, PartialEq, Eq, Structural)]
pub struct StageMatrix {
    /// The tiles of the stage.
    pub tiling: TilingDimensions,
    /// The layout of the matrix.
    pub layout: MatrixLayout,
    /// The number of elements of a line of the stage.
    pub line_size: u32,
}

/// The configuration of the stages of a matrix multiplication.
#[derive(Clone, Copy, Debug, PartialEq, Eq, Structural)]
pub struct StageConfig {
    pub lhs: StageMatrix,
    pub rhs: StageMatrix,
    pub out: StageMatrix,
    /// The number of units of a plane.
    pub plane_dim: u32,
}

impl StageConfig {
    /// What is settled of matrix `ident`.
    pub open spec fn spec_matrix(&self, ident: Ident) -> StageMatrix {
        match ident {
            Ident::Lhs => self.lhs,
            Ident::Rhs => self.rhs,
            Ident::Out => self.out,
        }
    }

    /// What is settled of matrix `ident`.
    #[verifier::when_used_as_spec(spec_matrix)]
    pub fn matrix(&self, ident: Ident) -> (r: StageMatrix)
        ensures
            r == self.spec_matrix(ident),
    {
        match ident {
            Ident::Lhs => self.lhs,
            Ident::Rhs => self.rhs,
            Ident::Out => self.out,
        }
    }

    /// The tiles of the stage of matrix `ident`.
    pub fn tiling_dimensions(&self, ident: Ident) -> (r: TilingDimensions)
        ensures
            r == self.spec_matrix(ident).tiling,
    {
        self.matrix(ident).tiling
    }

    /// The layout of matrix `ident`.
    pub fn matrix_layout(&self, ident: Ident) -> (r: MatrixLayout)
        ensures
            r == self.spec_matrix(ident).layout,
    {
        self.matrix(ident).layout
    }

    /// The number of units of a plane.
    pub fn plane_dim(&self) -> (r: u32)
        ensures
            r == self.plane_dim,
    {
        self.plane_dim
    }

    /// The number of elements of a line of the stage of matrix `ident`.
    pub fn stage_line_size(&self, ident: Ident) -> (r: u32)
        ensures
            r == self.spec_matrix(ident).line_size,
    {
        self.matrix(ident).line_size
    }
}

/// The configuration of a matrix multiplication at the global level.
#[derive(Clone, Copy, Debug, PartialEq, Eq, Structural)]
pub struct CommonGlobalConfig {
    pub smm_config: StageConfig,
    pub check_m_bounds: bool,
    pub check_n_bounds: bool,
    pub check_k_bounds: bool,
    pub lhs_layout: MatrixLayout,
    pub rhs_layout: MatrixLayout,
    pub lhs_line_size: u32,
    pub rhs_line_size: u32,
    pub out_line_size: u32,
    pub num_planes: u32,
}

impl CommonGlobalConfig {
    /// A configuration of exactly the parts given.
    pub fn new(
        smm_config: StageConfig,
        check_m_bounds: bool,
        check_n_bounds: bool,
        check_k_bounds: bool,
        lhs_layout: MatrixLayout,
        rhs_layout: MatrixLayout,
        lhs_line_size: u32,
        rhs_line_size: u32,
        out_line_size: u32,
        num_planes: u32,
    ) -> (r: Self)
        ensures
            r.smm_config == smm_config,
            r.check_m_bounds == check_m_bounds,
            r.check_n_bounds == check_n_bounds,
            r.check_k_bounds == check_k_bounds,
            r.lhs_layout == lhs_layout,
            r.rhs_layout == rhs_layout,
            r.lhs_line_size == lhs_line_size,
            r.rhs_line_size == rhs_line_size,
            r.out_line_size == out_line_size,
            r.num_planes == num_planes,
    {
        CommonGlobalConfig {
            smm_config,
            check_m_bounds,
            check_n_bounds,
            check_k_bounds,
            lhs_layout,
            rhs_layout,
            lhs_line_size,
            rhs_line_size,
            out_line_size,
            num_planes,
        }
    }

    /// The configuration of the stages.
    pub fn to_smm_config(&self) -> (r: StageConfig)
        ensures
            r == self.smm_config,
    {
        self.smm_config
    }

    /// The number of elements of a line of matrix `ident` in global memory.
    pub open spec fn spec_global_line_size(&self, ident: Ident) -> u32 {
        match ident {
            Ident::Lhs => self.lhs_line_size,
            Ident::Rhs => self.rhs_line_size,
            Ident::Out => self.out_line_size,
        }
    }

    /// The number of elements of a line of matrix `ident` in global memory.
    #[verifier::when_used_as_spec(spec_global_line_size)]
    pub fn global_line_size(&self, ident: Ident) -> (r: u32)
        ensures
            r == self.spec_global_line_size(ident),
    {
        match ident {
            Ident::Lhs => self.lhs_line_size,
            Ident::Rhs => self.rhs_line_size,
            Ident::Out => self.out_line_size,
        }
    }

    /// The tiles of the stage of matrix `ident`.
    pub fn tiling_dimensions(&self, ident: Ident) -> (r: TilingDimensions)
        ensures
            r == self.smm_config.spec_matrix(ident).tiling,
    {
        self.smm_config.tiling_dimensions(ident)
    }

    /// The layout of matrix `ident`: of an input as configured here, of the output as
    /// the stages have it.
    pub open spec fn spec_matrix_layout(&self, ident: Ident) -> MatrixLayout {
        match ident {
            Ident::Lhs => self.lhs_layout,
            Ident::Rhs => self.rhs_layout,
            Ident::Out => self.smm_config.out.layout,
        }
    }

    /// The layout of matrix `ident`.
    #[verifier::when_used_as_spec(spec_matrix_layout)]
    pub fn matrix_layout(&self, ident: Ident) -> (r: MatrixLayout)
        ensures
            r == self.spec_matrix_layout(ident),
    {
        match ident {
            Ident::Lhs => self.lhs_layout,
            Ident::Rhs => self.rhs_layout,
            Ident::Out => self.smm_config.matrix_layout(Ident::Out),
        }
    }

    /// The number of planes of a cube.
    pub fn num_planes(&self) -> (r: u32)
        ensures
            r == self.num_planes,
    {
        self.num_planes
    }

    /// The number of units of a plane.
    pub fn plane_dim(&self) -> (r: u32)
        ensures
            r == self.smm_config.plane_dim,
    {
        self.smm_config.plane_dim()
    }

    /// Whether reads and writes of matrix `ident` are checked against its number of
    /// rows: `m` for the left-hand side and the output, `k` for the right-hand side.
    pub open spec fn spec_check_row_bounds(&self, ident: Ident) -> bool {
        match ident {
            Ident::Lhs => self.check_m_bounds,
            Ident::Rhs => self.check_k_bounds,
            Ident::Out => self.check_m_bounds,
        }
    }

    /// Whether reads and writes of matrix `ident` are checked against its number of rows.
    #[verifier::when_used_as_spec(spec_check_row_bounds)]
    pub fn check_row_bounds(&self, ident: Ident) -> (r: bool)
        ensures
            r == self.spec_check_row_bounds(ident),
    {
        match ident {
            Ident::Lhs => self.check_m_bounds,
            Ident::Rhs => self.check_k_bounds,
            Ident::Out => self.check_m_bounds,
        }
    }

    /// Whether reads and writes of matrix `ident` are checked against its number of
    /// columns: `k` for the left-hand side, `n` for the right-hand side and the output.
    pub open spec fn spec_check_col_bounds(&self, ident: Ident) -> bool {
        match ident {
            Ident::Lhs => self.check_k_bounds,
            Ident::Rhs => self.check_n_bounds,
            Ident::Out => self.check_n_bounds,
        }
    }

    /// Whether reads and writes of matrix `ident` are checked against its number of
    /// columns.
    #[verifier::when_used_as_spec(spec_check_col_bounds)]
    pub fn check_col_bounds(&self, ident: Ident) -> (r: bool)
        ensures
            r == self.spec_check_col_bounds(ident),
    {
        match ident {
            Ident::Lhs => self.check_k_bounds,
            Ident::Rhs => self.check_n_bounds,
            Ident::Out => self.check_n_bounds,
        }
    }

    /// Whether reads are checked against `k`.
    pub fn check_k_bounds(&self) -> (r: bool)
        ensures
            r == self.check_k_bounds,
    {
        self.check_k_bounds
    }

    /// Whether the work of a loading job is laid out before the kernel starts.
    pub fn precompute_job(&self) -> (r: bool)
        ensures
            r == PRECOMPUTE_JOB,
    {
        PRECOMPUTE_JOB
    }
}

} // verus!
