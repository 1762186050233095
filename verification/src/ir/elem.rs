//! Element types and the width tags that refine them.

use vstd::prelude::*;

verus! {

/// Width of a signed integer element.
#[derive(Clone, Copy, Debug, PartialEq, Eq, Hash, Structural)]
pub enum IntKind {
    I32,
    I64,
}

/// Width and format of a floating-point element.
#[derive(Clone, Copy, Debug, PartialEq, Eq, Hash, Structural)]
pub enum FloatKind {
    F16,
    BF16,
    F32,
    F64,
}

/// The scalar type of a variable, independent of how many lanes it packs.
#[derive(Clone, Copy, Debug, PartialEq, Eq, Hash, Structural)]
pub enum Elem {
    Float(FloatKind),
    Int(IntKind),
    UInt,
    Bool,
    Unit,
}

impl IntKind {
    /// Number of values of this kind: two to the power of its width.
    pub open spec fn range(self) -> int {
        match self {
            IntKind::I32 => 0x1_0000_0000,
            IntKind::I64 => 0x1_0000_0000_0000_0000,
        }
    }

    /// Width of this kind in bits.
    pub open spec fn spec_bits(&self) -> i64 {
        match *self {
            IntKind::I32 => 32,
            IntKind::I64 => 64,
        }
    }

    /// Width of this kind in bits.
    #[verifier::when_used_as_spec(spec_bits)]
    pub fn bits(&self) -> (r: i64)
        ensures
            r == self.spec_bits(),
    {
        match self {
            IntKind::I32 => 32,
            IntKind::I64 => 64,
        }
    }

    /// Largest value of this kind.
    pub open spec fn max_value(self) -> int {
        match self {
            IntKind::I32 => 0x7fff_ffff,
            IntKind::I64 => 0x7fff_ffff_ffff_ffff,
        }
    }

    /// Smallest value of this kind.
    pub open spec fn min_value(self) -> int {
        -self.max_value() - 1
    }

    /// Whether `v` is a value of this kind.
    pub open spec fn fits(self, v: int) -> bool {
        self.min_value() <= v <= self.max_value()
    }

    /// The value of this kind that is congruent to `v` modulo the kind's range: what
    /// two's-complement arithmetic at this width makes of the mathematical result `v`.
    pub open spec fn wrap(self, v: int) -> int {
        let m = v % self.range();
        if m > self.max_value() {
            m - self.range()
        } else {
            m
        }
    }

    /// A value of the kind is left alone by `wrap`.
    pub proof fn lemma_wrap_fits(self, v: int)
        ensures
            self.fits(self.wrap(v)),
            self.fits(v) ==> self.wrap(v) == v,
            self.wrap(self.wrap(v)) == self.wrap(v),
    {
    }

    /// Reducing to 64 bits first does not change what a kind makes of a value.
    pub proof fn lemma_wrap_of_wrapped(self, v: int)
        ensures
            self.wrap(IntKind::I64.wrap(v)) == self.wrap(v),
            self.wrap(wrap_u64(v)) == self.wrap(v),
    {
        let whole = 0x1_0000_0000_0000_0000int;
        let range = self.range();
        let times = match self {
            IntKind::I32 => 0x1_0000_0000int,
            IntKind::I64 => 1int,
        };
        let low = v % whole;
        assert(range * times == whole);
        vstd::arithmetic::div_mod::lemma_mod_mod(v, range, times);
        assert(low % range == v % range);
        vstd::arithmetic::div_mod::lemma_mod_multiples_vanish(-times, low, range);
        assert((low - whole) % range == low % range);
    }

    /// What 64-bit two's complement makes of a sum or difference of two 64-bit values:
    /// one range is added or taken away where the value lies outside.
    pub proof fn lemma_wrap_near(v: int)
        requires
            -0x1_0000_0000_0000_0000 <= v < 0x1_0000_0000_0000_0000,
        ensures
            IntKind::I64.wrap(v) == if v > 0x7fff_ffff_ffff_ffff {
                v - 0x1_0000_0000_0000_0000
            } else if v < -0x8000_0000_0000_0000 {
                v + 0x1_0000_0000_0000_0000
            } else {
                v
            },
            wrap_u64(v) == if v < 0 {
                v + 0x1_0000_0000_0000_0000
            } else {
                v
            },
    {
        let r = 0x1_0000_0000_0000_0000int;
        if v < 0 {
            vstd::arithmetic::div_mod::lemma_mod_add_multiples_vanish(v, r);
            vstd::arithmetic::div_mod::lemma_small_mod((v + r) as nat, r as nat);
        } else {
            vstd::arithmetic::div_mod::lemma_small_mod(v as nat, r as nat);
        }
    }

    /// Reduces a 64-bit value to this kind's width.
    pub fn truncate(self, v: i64) -> (r: i64)
        ensures
            r == self.wrap(v as int),
    {
        match self {
            IntKind::I32 => {
                let m = match v.checked_rem_euclid(0x1_0000_0000) {
                    Some(m) => m,
                    None => 0,
                };
                if m > 0x7fff_ffff {
                    m - 0x1_0000_0000
                } else {
                    m
                }
            },
            IntKind::I64 => v,
        }
    }
}

/// Reduction modulo two to the power of 64: what unsigned 64-bit arithmetic makes of
/// the mathematical result `v`.
pub open spec fn wrap_u64(v: int) -> int {
    v % 0x1_0000_0000_0000_0000
}

/// Reinterprets an unsigned 64-bit value as a signed one.
pub fn signed_of(v: u64) -> (r: i64)
    ensures
        r == IntKind::I64.wrap(v as int),
{
    assert((v as int) % 0x1_0000_0000_0000_0000 == v as int);
    if v <= 0x7fff_ffff_ffff_ffff {
        v as i64
    } else {
        ((v - 0x8000_0000_0000_0000) as i64) + i64::MIN
    }
}

/// Reinterprets a signed 64-bit value as an unsigned one.
pub fn unsigned_of(v: i64) -> (r: u64)
    ensures
        r == wrap_u64(v as int),
{
    if v >= 0 {
        v as u64
    } else {
        ((v - i64::MIN) as u64) + 0x8000_0000_0000_0000
    }
}

} // verus!
