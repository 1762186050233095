//! The reduction that keeps, lane by lane, the largest magnitude.
//!
//! A line is a vector of lanes. The functions here do on the host, for lines of 64-bit
//! integers, what the instruction does on the device for one unit.

use vstd::prelude::*;

verus! {

/// What a reduction needs to be told of the items it is shown.
#[derive(Clone, Copy, Debug, PartialEq, Eq, Structural)]
pub struct ReduceRequirements {
    /// Whether it needs the coordinate of each item.
    pub coordinates: bool,
}

/// Returns the item with the largest magnitude.
#[derive(Clone, Copy, Debug, PartialEq, Eq, Structural)]
pub struct MaxAbs;

/// The magnitude of a lane.
pub open spec fn magnitude(value: int) -> int {
    if value >= 0 {
        value
    } else {
        -value
    }
}

/// The larger of two lanes.
pub open spec fn larger(a: int, b: int) -> int {
    if a > b {
        a
    } else {
        b
    }
}

/// The largest of the first `n` lanes of a line, and zero where none is positive.
pub open spec fn largest(line: Seq<i64>, n: nat) -> int
    decreases n,
{
    if n == 0 {
        0
    } else {
        larger(line[n - 1] as int, largest(line, (n - 1) as nat))
    }
}

/// Whether every lane of a line has a magnitude that fits a lane.
pub open spec fn has_magnitudes(line: Seq<i64>) -> bool {
    forall|i: int| 0 <= i < line.len() ==> #[trigger] line[i] != i64::MIN
}

impl MaxAbs {
    /// Magnitudes are compared without regard to where the items stand.
    pub fn requirements(&self) -> (r: ReduceRequirements)
        ensures
            !r.coordinates,
    {
        ReduceRequirements { coordinates: false }
    }

    /// The instruction; it has nothing to configure.
    pub fn from_config(config: ()) -> (r: MaxAbs) {
        MaxAbs {  }
    }

    /// The line that changes no accumulator: all lanes zero.
    pub fn null_input(&self, line_size: u32) -> (line: Vec<i64>)
        ensures
            line.len() == line_size,
            forall|i: int| 0 <= i < line.len() ==> #[trigger] line[i] == 0,
    {
        let mut line: Vec<i64> = Vec::new();
        let mut i: u32 = 0;
        while i < line_size
            invariant
                i <= line_size,
                line.len() == i,
                forall|k: int| 0 <= k < i ==> #[trigger] line[k] == 0,
            decreases line_size - i,
        {
            line.push(0);
            i = i + 1;
        }
        line
    }

    /// The accumulator before any item: all lanes zero.
    pub fn null_accumulator(&self, line_size: u32) -> (line: Vec<i64>)
        ensures
            line.len() == line_size,
            forall|i: int| 0 <= i < line.len() ==> #[trigger] line[i] == 0,
    {
        self.null_input(line_size)
    }

    /// Replaces the accumulator `destination` by `source`.
    pub fn assign_accumulator(&self, destination: &mut Vec<i64>, source: &Vec<i64>)
        ensures
            final(destination)@ == source@,
    {
        let mut copy: Vec<i64> = Vec::new();
        let mut i: usize = 0;
        while i < source.len()
            invariant
                i <= source.len(),
                copy.len() == i,
                forall|k: int| 0 <= k < i ==> #[trigger] copy[k] == source[k],
            decreases source.len() - i,
        {
            copy.push(source[i]);
            i = i + 1;
        }
        assert(copy@ =~= source@);
        *destination = copy;
    }

    /// The accumulator after `item`: in each lane the larger of what was accumulated and
    /// the magnitude of the item.
    pub fn reduce(&self, accumulator: &Vec<i64>, item: &Vec<i64>) -> (r: Vec<i64>)
        requires
            accumulator.len() == item.len(),
            has_magnitudes(item@),
        ensures
            r.len() == item.len(),
            forall|i: int|
                0 <= i < r.len() ==> #[trigger] r[i] == larger(
                    accumulator[i] as int,
                    magnitude(item[i] as int),
                ),
    {
        let mut r: Vec<i64> = Vec::new();
        let mut i: usize = 0;
        while i < item.len()
            invariant
                i <= item.len(),
                accumulator.len() == item.len(),
                has_magnitudes(item@),
                r.len() == i,
                forall|k: int|
                    0 <= k < i ==> #[trigger] r[k] == larger(
                        accumulator[k] as int,
                        magnitude(item[k] as int),
                    ),
            decreases item.len() - i,
        {
            let value = item[i];
            assert(item@[i as int] != i64::MIN);
            let item_abs = if value >= 0 {
                value
            } else {
                -value
            };
            let kept = if accumulator[i] > item_abs {
                accumulator[i]
            } else {
                item_abs
            };
            r.push(kept);
            i = i + 1;
        }
        r
    }

    /// Two accumulators as one: in each lane the larger.
    pub fn fuse_accumulators(&self, lhs: &Vec<i64>, rhs: &Vec<i64>) -> (r: Vec<i64>)
        requires
            lhs.len() == rhs.len(),
        ensures
            r.len() == lhs.len(),
            forall|i: int|
                0 <= i < r.len() ==> #[trigger] r[i] == larger(lhs[i] as int, rhs[i] as int),
    {
        let mut r: Vec<i64> = Vec::new();
        let mut i: usize = 0;
        while i < lhs.len()
            invariant
                i <= lhs.len(),
                lhs.len() == rhs.len(),
                r.len() == i,
                forall|k: int|
                    0 <= k < i ==> #[trigger] r[k] == larger(lhs[k] as int, rhs[k] as int),
            decreases lhs.len() - i,
        {
            let kept = if lhs[i] > rhs[i] {
                lhs[i]
            } else {
                rhs[i]
            };
            r.push(kept);
            i = i + 1;
        }
        r
    }

    /// The lanes of an accumulator as one value: the largest of them, and zero where
    /// none is positive.
    pub fn merge_line(&self, accumulator: &Vec<i64>) -> (max: i64)
        ensures
            max == largest(accumulator@, accumulator.len() as nat),
    {
        let mut max: i64 = 0;
        let mut k: usize = 0;
        while k < accumulator.len()
            invariant
                k <= accumulator.len(),
                max == largest(accumulator@, k as nat),
            decreases accumulator.len() - k,
        {
            let candidate = accumulator[k];
            max = if candidate > max {
                candidate
            } else {
                max
            };
            k = k + 1;
        }
        max
    }

    /// The accumulator as the output of a reduction across lines: as it is.
    pub fn to_output_perpendicular(&self, accumulator: Vec<i64>) -> (r: Vec<i64>)
        ensures
            r@ == accumulator@,
    {
        accumulator
    }
}

} // verus!
