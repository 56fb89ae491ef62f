use vstd::prelude::*;

verus! {

/// An exact rational quantity `num / den`, kept unreduced.
///
/// The pointer-derived draw offset is such a quantity: dividing two
/// window coordinates yields a value that is representable exactly only
/// as a fraction, so the state machine stores numerator and denominator
/// and never divides.
#[derive(Clone, Copy, Debug, PartialEq, Eq, Structural)]
pub struct Frac {
    pub num: i128,
    pub den: i128,
}

impl Frac {
    /// The fraction denotes a value only when the denominator is nonzero.
    pub open spec fn wf(self) -> bool {
        self.den != 0
    }

    /// Two fractions denote the same rational value (cross multiplication).
    pub open spec fn eqv(self, other: Frac) -> bool {
        self.num * other.den == other.num * self.den
    }

    /// The fraction denotes zero.
    pub open spec fn is_zero(self) -> bool {
        self.num == 0
    }

    /// The exact zero, `0 / 1`.
    pub fn zero() -> (r: Frac)
        ensures
            r == (Frac { num: 0, den: 1 }),
    {
        Frac { num: 0, den: 1 }
    }
}

/// A physical pixel extent of the presentation surface.
#[derive(Clone, Copy, Debug, PartialEq, Eq, Structural)]
pub struct Extent {
    pub width: u32,
    pub height: u32,
}

/// The display scale factor (device pixel ratio) as an exact
/// nonnegative rational `num / den`.
#[derive(Clone, Copy, Debug, PartialEq, Eq, Structural)]
pub struct Scale {
    pub num: u32,
    pub den: u32,
}

impl Scale {
    pub open spec fn wf(self) -> bool {
        self.den != 0
    }
}

/// The normalized-device-coordinate offset for pointer coordinate
/// `coord` within a window of length `len`, as the exact rational
/// `2 * coord / len - 1 == (2 * coord - len) / len`.
pub open spec fn spec_ndc_offset(coord: int, len: int) -> Frac {
    Frac { num: (2 * coord - len) as i128, den: len as i128 }
}

/// Computes the exact normalized-device-coordinate offset of a pointer
/// coordinate: the rational `(2 * coord - len) / len`.
pub fn ndc_offset(coord: i64, len: i64) -> (r: Frac)
    ensures
        r == spec_ndc_offset(coord as int, len as int),
        r.num == 2 * coord - len,
        r.den == len as int,
{
    Frac { num: 2 * (coord as i128) - (len as i128), den: len as i128 }
}

/// `len` logical units scaled to physical pixels by `s`, rounded toward
/// zero and clamped to the `u32` range: `floor(len * s.num / s.den)`,
/// with negative lengths clamped to 0 and overlarge results to
/// `u32::MAX`.
pub open spec fn spec_scaled(len: int, s: Scale) -> int
    recommends
        s.wf(),
{
    if len <= 0 {
        0
    } else if (len * s.num) / (s.den as int) > u32::MAX {
        u32::MAX as int
    } else {
        (len * s.num) / (s.den as int)
    }
}

/// Converts a logical window length to physical pixels using the
/// display scale factor, exactly as `spec_scaled` states.
pub fn scaled_length(len: i64, s: Scale) -> (r: u32)
    requires
        s.wf(),
    ensures
        r == spec_scaled(len as int, s),
{
    if len <= 0 {
        0
    } else {
        proof {
            assert((len as u128) * (s.num as u128) <= (i64::MAX as u128) * (u32::MAX
                as u128)) by (nonlinear_arith)
                requires
                    0 < len as u128 <= i64::MAX as u128,
                    s.num as u128 <= u32::MAX as u128,
            ;
        }
        let wide: u128 = (len as u128) * (s.num as u128);
        let q: u128 = wide / (s.den as u128);
        if q > u32::MAX as u128 {
            u32::MAX
        } else {
            q as u32
        }
    }
}

} // verus!
