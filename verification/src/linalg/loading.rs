//! Loading one half of a stage with one asynchronous copy for each contiguous slice: the
//! fewest copies, at the price of units that may stay idle.

use vstd::prelude::*;
use crate::linalg::algorithm::div_ceil_u32;
use crate::linalg::components::{div_ceil, InputIdent, MatrixLayout, TilingDimensions};
use crate::linalg::config::CommonGlobalConfig;

verus! {

/// The number of halves that a stage is loaded in.
pub const NUM_BUFFERS: u32 = 2;

/// Executes one copy for each contiguous slice of its half of the stage.
#[derive(Clone, Copy, Debug)]
pub struct LoadingStrategy {}

/// What the units of a cube do to load one half of a stage.
#[derive(Clone, Copy, Debug, PartialEq, Eq, Structural)]
pub struct Job {
    pub num_tasks_per_unit: u32,
    pub unit_count: u32,
    pub num_slices_buffer_offset: u32,
    pub input_ident: InputIdent,
    pub slice_buffer_offset: u32,
    pub slice_length: u32,
    pub num_slices: u32,
}

/// One copy: the slice of the stage that is filled, and the range of lines within it.
#[derive(Clone, Copy, Debug, PartialEq, Eq, Structural)]
pub struct SliceCopy {
    pub nth_slice: u32,
    pub start: u32,
    pub end: u32,
}

/// The job that loads half `buffer_index` of a stage of `tiling`, laid out as `layout`,
/// in lines of `line_size` elements, by `unit_count` units.
///
/// Where the half is cut across the slices (the left-hand side by rows, the right-hand
/// side by columns) there are as many slices as in the whole stage and each is half as
/// long. Where it is cut along them there are half as many slices, each as long as in
/// the whole stage.
pub open spec fn job_for(
    buffer_index: u32,
    input_ident: InputIdent,
    layout: MatrixLayout,
    tiling: TilingDimensions,
    line_size: u32,
    unit_count: u32,
) -> Job {
    let rows = tiling.spec_total_row();
    let cols = tiling.spec_total_col();
    let across = (input_ident is Lhs) == (layout is RowMajor);
    let slices_run_along_rows = layout is RowMajor;
    let (slices, length) = if slices_run_along_rows {
        (rows, cols)
    } else {
        (cols, rows)
    };
    if across {
        let slice_length = length / (NUM_BUFFERS * line_size);
        Job {
            num_tasks_per_unit: div_ceil(slices, unit_count as int) as u32,
            unit_count,
            num_slices_buffer_offset: 0,
            input_ident,
            slice_buffer_offset: (buffer_index * slice_length) as u32,
            slice_length: slice_length as u32,
            num_slices: slices as u32,
        }
    } else {
        let num_slices = slices / NUM_BUFFERS as int;
        Job {
            num_tasks_per_unit: div_ceil(num_slices, unit_count as int) as u32,
            unit_count,
            num_slices_buffer_offset: (buffer_index * num_slices) as u32,
            input_ident,
            slice_buffer_offset: 0,
            slice_length: (length / line_size as int) as u32,
            num_slices: num_slices as u32,
        }
    }
}

impl LoadingStrategy {
    /// Every configuration can be loaded in slices.
    pub fn check(input_ident: InputIdent) -> (r: Result<(), ()>)
        ensures
            r is Ok,
    {
        Ok(())
    }

    /// Lays out the job that loads half `buffer_index` of the stage of matrix
    /// `input_ident`.
    pub fn new_job(buffer_index: u32, input_ident: InputIdent, config: &CommonGlobalConfig) -> (job:
        Job)
        requires
            buffer_index < NUM_BUFFERS,
            config.smm_config.spec_matrix(input_ident.spec_as_ident()).tiling.fits(),
            1 <= config.smm_config.spec_matrix(input_ident.spec_as_ident()).line_size
                <= u32::MAX / 2,
            1 <= config.smm_config.plane_dim * config.num_planes <= u32::MAX,
        ensures
            job == job_for(
                buffer_index,
                input_ident,
                config.spec_matrix_layout(input_ident.spec_as_ident()),
                config.smm_config.spec_matrix(input_ident.spec_as_ident()).tiling,
                config.smm_config.spec_matrix(input_ident.spec_as_ident()).line_size,
                (config.smm_config.plane_dim * config.num_planes) as u32,
            ),
    {
        let ident = input_ident.as_ident();
        let matrix_layout = config.matrix_layout(ident);
        let tiling_dimensions = config.tiling_dimensions(ident);
        let line_size = config.to_smm_config().stage_line_size(ident);
        let num_buffers = NUM_BUFFERS;
        let rows = tiling_dimensions.total_row();
        let cols = tiling_dimensions.total_col();

        let (num_slices, num_slices_buffer_offset, slice_length, slice_buffer_offset) = match (
            input_ident,
            matrix_layout,
        ) {
            (InputIdent::Lhs, MatrixLayout::RowMajor) => {
                let num_slices = rows;
                let slice_length = cols / (num_buffers * line_size);
                proof {
                    lemma_half(cols as int, (num_buffers * line_size) as int, 2);
                    lemma_within(buffer_index as int, slice_length as int);
                }
                (num_slices, 0, slice_length, buffer_index * slice_length)
            },
            (InputIdent::Lhs, MatrixLayout::ColMajor) => {
                let num_slices = cols / num_buffers;
                let slice_length = rows / line_size;
                proof {
                    lemma_within(buffer_index as int, num_slices as int);
                }
                (num_slices, buffer_index * num_slices, slice_length, 0)
            },
            (InputIdent::Rhs, MatrixLayout::RowMajor) => {
                let num_slices = rows / num_buffers;
                let slice_length = cols / line_size;
                proof {
                    lemma_within(buffer_index as int, num_slices as int);
                }
                (num_slices, buffer_index * num_slices, slice_length, 0)
            },
            (InputIdent::Rhs, MatrixLayout::ColMajor) => {
                let num_slices = cols;
                let slice_length = rows / (num_buffers * line_size);
                proof {
                    lemma_half(rows as int, (num_buffers * line_size) as int, 2);
                    lemma_within(buffer_index as int, slice_length as int);
                }
                (num_slices, 0, slice_length, buffer_index * slice_length)
            },
        };

        let unit_count = config.plane_dim() * config.num_planes();
        let num_tasks_per_unit = div_ceil_u32(num_slices, unit_count);

        Job {
            num_tasks_per_unit,
            unit_count,
            num_slices_buffer_offset,
            input_ident,
            slice_buffer_offset,
            slice_length,
            num_slices,
        }
    }
}

/// The offset of the first or second half is no more than one half.
pub proof fn lemma_within(buffer_index: int, half: int)
    requires
        0 <= buffer_index < 2,
        0 <= half,
    ensures
        0 <= buffer_index * half <= half,
{
    assert(0 <= buffer_index * half <= half) by (nonlinear_arith)
        requires
            0 <= buffer_index < 2,
            0 <= half,
    ;
}

/// A number divided by at least `least` is at most the number divided by `least`.
pub proof fn lemma_half(a: int, d: int, least: int)
    requires
        0 <= a,
        1 <= least <= d,
    ensures
        0 <= a / d <= a / least,
        (a / d) * least <= a,
{
    vstd::arithmetic::div_mod::lemma_div_is_ordered_by_denominator(a, least, d);
    vstd::arithmetic::div_mod::lemma_div_pos_is_pos(a, d);
    vstd::arithmetic::div_mod::lemma_fundamental_div_mod(a, least);
    let q = a / least;
    let r = a % least;
    assert((a / d) * least <= a) by (nonlinear_arith)
        requires
            0 <= a / d <= q,
            a == least * q + r,
            0 <= r,
            1 <= least,
    ;
}

impl Job {
    /// The slice, counted within the half, that unit `unit_pos` fills in its task
    /// `task_id`.
    pub open spec fn nth_slice_in_buffer(&self, task_id: u32, unit_pos: u32) -> int {
        self.unit_count * task_id + unit_pos
    }

    /// Whether the unit has a slice to fill in that task: it has unless the slices do
    /// not go round among the units and this one is left without.
    pub open spec fn has_slice(&self, task_id: u32, unit_pos: u32) -> bool {
        self.num_slices as int % self.unit_count as int == 0 || self.nth_slice_in_buffer(
            task_id,
            unit_pos,
        ) < self.num_slices
    }

    /// The copy that the unit makes in that task, from a window of `window_size` lines:
    /// from where the half begins, as far as the half and the window reach.
    pub open spec fn copy_for(&self, task_id: u32, unit_pos: u32, window_size: u32) -> SliceCopy {
        let limit = if self.slice_buffer_offset < window_size {
            self.slice_buffer_offset
        } else {
            window_size
        };
        let available = window_size - limit;
        let length = if available <= self.slice_length {
            available
        } else {
            self.slice_length as int
        };
        SliceCopy {
            nth_slice: (self.nth_slice_in_buffer(task_id, unit_pos)
                + self.num_slices_buffer_offset) as u32,
            start: self.slice_buffer_offset,
            end: (self.slice_buffer_offset + length) as u32,
        }
    }

    /// What unit `unit_pos` copies in its task `task_id`, given the number of lines of
    /// the window that it reads from; `None` where the unit has no slice to fill.
    pub fn execute_task(&self, task_id: u32, unit_pos: u32, window_size: u32) -> (r: Option<
        SliceCopy,
    >)
        requires
            self.unit_count >= 1,
            self.nth_slice_in_buffer(task_id, unit_pos) + self.num_slices_buffer_offset
                <= u32::MAX,
            self.slice_buffer_offset + self.slice_length <= u32::MAX,
        ensures
            r == if self.has_slice(task_id, unit_pos) {
                Some(self.copy_for(task_id, unit_pos, window_size))
            } else {
                None
            },
    {
        assert(self.unit_count * task_id >= 0) by (nonlinear_arith)
            requires
                self.unit_count >= 0,
                task_id >= 0,
        ;
        let nth_slice_in_buffer = self.unit_count * task_id + unit_pos;
        let nth_slice = nth_slice_in_buffer + self.num_slices_buffer_offset;

        let start = self.slice_buffer_offset;
        let limit = if self.slice_buffer_offset < window_size {
            self.slice_buffer_offset
        } else {
            window_size
        };
        let available = window_size - limit;
        let end = start + if available <= self.slice_length {
            available
        } else {
            self.slice_length
        };

        if self.num_slices % self.unit_count == 0 || nth_slice_in_buffer < self.num_slices {
            Some(SliceCopy { nth_slice, start, end })
        } else {
            None
        }
    }

    /// The number of tasks of each unit.
    pub fn task_count(&self) -> (r: u32)
        ensures
            r == self.num_tasks_per_unit,
    {
        self.num_tasks_per_unit
    }
}

} // verus!
