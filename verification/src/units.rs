use vstd::prelude::*;

verus! {

/// One whole unit of the fixed-point scale used throughout the crate.
/// Coordinates, lengths and color channels are stored as integer counts of
/// millionths of a unit, so that every quantity the renderer reasons about
/// is exact.
pub const MICRO: i64 = 1_000_000;

/// Largest coordinate magnitude (in micro units) the geometry and
/// projection math accepts. Keeps every intermediate sum and doubling
/// comfortably inside `i64`.
pub const COORD_LIMIT: i64 = 0x000f_ffff_ffff_ffff;

/// An exact rational number with a positive denominator. Used wherever a
/// quantity is a true quotient (normalized device coordinates, sampling
/// weights) and rounding would lose the exactness the contracts rely on.
#[derive(Clone, Copy, PartialEq, Eq, Structural, Debug)]
pub struct Ratio {
    pub num: i128,
    pub den: i128,
}

/// A product of one factor from the signed 64-bit range and one positive
/// factor below `i64::MAX` stays comfortably inside the 128-bit range.
proof fn lemma_bounded_mul(a: int, b: int)
    requires
        -0x8000_0000_0000_0000 <= a <= 0x7fff_ffff_ffff_ffff,
        0 < b <= 0x7fff_ffff_ffff_ffff,
    ensures
        -0x4000_0000_0000_0000_0000_0000_0000_0000 <= a * b
            <= 0x4000_0000_0000_0000_0000_0000_0000_0000,
{
    assert(-0x4000_0000_0000_0000_0000_0000_0000_0000 <= a * b
        <= 0x4000_0000_0000_0000_0000_0000_0000_0000) by (nonlinear_arith)
        requires
            -0x8000_0000_0000_0000 <= a <= 0x7fff_ffff_ffff_ffff,
            0 < b <= 0x7fff_ffff_ffff_ffff,
    ;
}

impl Ratio {
    /// Well-formed: the denominator is positive.
    pub open spec fn wf(self) -> bool {
        self.den > 0
    }

    /// Both sides denote the same rational value (cross multiplication).
    pub open spec fn same_value(self, o: Ratio) -> bool {
        self.num * o.den == o.num * self.den
    }

    /// The rational denotes exactly the integer `v`.
    pub open spec fn is_int(self, v: int) -> bool {
        self.num == v * self.den
    }

    pub fn new(num: i128, den: i128) -> (r: Ratio)
        requires
            den > 0,
        ensures
            r.wf(),
            r.num == num,
            r.den == den,
    {
        Ratio { num, den }
    }

    /// Decides whether the rational denotes exactly the integer `v`.
    pub fn equals_int(&self, v: i64) -> (r: bool)
        requires
            self.wf(),
            self.den <= 0x7fff_ffff_ffff_ffff,
        ensures
            r == self.is_int(v as int),
    {
        proof {
            lemma_bounded_mul(v as int, self.den as int);
        }
        let prod: i128 = (v as i128) * self.den;
        self.num == prod
    }

    /// Decides whether two well-formed rationals denote the same value.
    pub fn same_value_as(&self, o: &Ratio) -> (r: bool)
        requires
            self.wf(),
            o.wf(),
            -0x7fff_ffff_ffff_ffff <= self.num <= 0x7fff_ffff_ffff_ffff,
            -0x7fff_ffff_ffff_ffff <= o.num <= 0x7fff_ffff_ffff_ffff,
            self.den <= 0x7fff_ffff_ffff_ffff,
            o.den <= 0x7fff_ffff_ffff_ffff,
        ensures
            r == self.same_value(*o),
    {
        proof {
            lemma_bounded_mul(self.num as int, o.den as int);
            lemma_bounded_mul(o.num as int, self.den as int);
        }
        let left: i128 = self.num * o.den;
        let right: i128 = o.num * self.den;
        left == right
    }
}

} // verus!
