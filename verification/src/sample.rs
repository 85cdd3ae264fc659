//! Accelerometer readings and their magnitudes, in whole milli-g.

use vstd::prelude::*;

verus! {

/// One reading of the three-axis accelerometer. Each axis is in milli-g, the
/// unit the sensor reports. A sample is never changed once it exists.
#[derive(Clone, Copy, Debug, PartialEq, Eq, Structural)]
pub struct AccelerationSample {
    x_mg: i32,
    y_mg: i32,
    z_mg: i32,
}

/// The length of an acceleration vector.
///
/// The length is the non-negative real number whose square is `squared()`, in
/// milli-g. It is held by that square, so comparing it with a whole threshold
/// loses nothing to rounding.
#[derive(Clone, Copy, Debug, PartialEq, Eq, Structural)]
pub struct Magnitude {
    /// The square of the length, in milli-g squared.
    pub squared_mg: u64,
}

/// `x² + y² + z²`.
pub open spec fn norm_squared(x: int, y: int, z: int) -> int {
    x * x + y * y + z * z
}

/// `r` is the whole part of the square root of `n`.
pub open spec fn is_floor_sqrt(r: int, n: int) -> bool {
    0 <= r && r * r <= n && n < (r + 1) * (r + 1)
}

/// A number between `-bound` and `bound` has a square of at most `bound²`.
proof fn lemma_square_bound(a: int, bound: int)
    requires
        -bound <= a <= bound,
    ensures
        0 <= a * a <= bound * bound,
{
    assert(0 <= a * a <= bound * bound) by (nonlinear_arith)
        requires
            -bound <= a <= bound,
    ;
}

/// A number has one whole square root and no other.
pub proof fn lemma_floor_sqrt_is_unique(a: int, b: int, n: int)
    requires
        is_floor_sqrt(a, n),
        is_floor_sqrt(b, n),
    ensures
        a == b,
{
    if a < b {
        lemma_square_bound(a + 1, b);
    } else if b < a {
        lemma_square_bound(b + 1, a);
    }
}

/// The magnitude of a whole number of milli-g is exact: the root of its
/// square, rounded down, is that number again.
pub proof fn lemma_whole_magnitude_is_exact(mg: u32, rounded: u32)
    requires
        is_floor_sqrt(rounded as int, mg * mg),
    ensures
        rounded == mg,
{
    assert(is_floor_sqrt(mg as int, mg * mg)) by (nonlinear_arith);
    lemma_floor_sqrt_is_unique(rounded as int, mg as int, mg * mg);
}

/// The square of one axis, which always fits.
fn axis_squared(v: i32) -> (sq: u64)
    ensures
        sq == v * v,
        sq <= 0x4000_0000_0000_0000,
{
    proof {
        lemma_square_bound(v as int, 0x8000_0000);
    }
    let wide: i64 = v as i64;
    let sq: i64 = wide * wide;
    sq as u64
}

impl AccelerationSample {
    /// The reading on the x axis, in milli-g.
    pub closed spec fn x(&self) -> int {
        self.x_mg as int
    }

    /// The reading on the y axis, in milli-g.
    pub closed spec fn y(&self) -> int {
        self.y_mg as int
    }

    /// The reading on the z axis, in milli-g.
    pub closed spec fn z(&self) -> int {
        self.z_mg as int
    }

    /// The sample with the given readings in milli-g.
    pub fn new(x_mg: i32, y_mg: i32, z_mg: i32) -> (sample: AccelerationSample)
        ensures
            sample.x() == x_mg,
            sample.y() == y_mg,
            sample.z() == z_mg,
    {
        AccelerationSample { x_mg, y_mg, z_mg }
    }

    /// The reading on the x axis, in milli-g.
    pub fn x_mg(&self) -> (v: i32)
        ensures
            v == self.x(),
    {
        self.x_mg
    }

    /// The reading on the y axis, in milli-g.
    pub fn y_mg(&self) -> (v: i32)
        ensures
            v == self.y(),
    {
        self.y_mg
    }

    /// The reading on the z axis, in milli-g.
    pub fn z_mg(&self) -> (v: i32)
        ensures
            v == self.z(),
    {
        self.z_mg
    }

    /// The square of the length of the measured vector.
    pub open spec fn norm_squared(&self) -> int {
        norm_squared(self.x(), self.y(), self.z())
    }

    /// The length of the measured vector, `sqrt(x² + y² + z²)`.
    pub fn magnitude(&self) -> (m: Magnitude)
        ensures
            m.squared() == self.norm_squared(),
    {
        let xx: u64 = axis_squared(self.x_mg);
        let yy: u64 = axis_squared(self.y_mg);
        let zz: u64 = axis_squared(self.z_mg);
        Magnitude { squared_mg: xx + yy + zz }
    }
}

impl Magnitude {
    /// The square of the length, in milli-g squared.
    pub open spec fn squared(&self) -> int {
        self.squared_mg as int
    }

    /// The length is less than `threshold_mg`.
    pub open spec fn below(&self, threshold_mg: nat) -> bool {
        self.squared() < threshold_mg * threshold_mg
    }

    /// The length is greater than `threshold_mg`.
    pub open spec fn above(&self, threshold_mg: nat) -> bool {
        self.squared() > threshold_mg * threshold_mg
    }

    /// The magnitude of exactly `mg` milli-g.
    pub fn from_milli_g(mg: u32) -> (m: Magnitude)
        ensures
            m.squared() == mg * mg,
    {
        proof {
            lemma_square_bound(mg as int, 0xffff_ffff);
        }
        let wide: u64 = mg as u64;
        Magnitude { squared_mg: wide * wide }
    }

    /// Whether the length is less than `threshold_mg`.
    pub fn is_below(&self, threshold_mg: u32) -> (b: bool)
        ensures
            b == self.below(threshold_mg as nat),
    {
        proof {
            lemma_square_bound(threshold_mg as int, 0xffff_ffff);
        }
        let t: u64 = threshold_mg as u64;
        self.squared_mg < t * t
    }

    /// Whether the length is greater than `threshold_mg`.
    pub fn is_above(&self, threshold_mg: u32) -> (b: bool)
        ensures
            b == self.above(threshold_mg as nat),
    {
        proof {
            lemma_square_bound(threshold_mg as int, 0xffff_ffff);
        }
        let t: u64 = threshold_mg as u64;
        self.squared_mg > t * t
    }

    /// The length rounded down to whole milli-g.
    pub fn floor_milli_g(&self) -> (mg: u32)
        ensures
            is_floor_sqrt(mg as int, self.squared()),
    {
        let n: u64 = self.squared_mg;
        let mut lo: u64 = 0;
        let mut hi: u64 = 0x1_0000_0000;
        while hi - lo > 1
            invariant
                lo < hi <= 0x1_0000_0000,
                lo * lo <= n,
                n < hi * hi,
            decreases hi - lo,
        {
            let mid: u64 = lo + (hi - lo) / 2;
            proof {
                lemma_square_bound(mid as int, 0xffff_ffff);
            }
            if mid * mid <= n {
                lo = mid;
            } else {
                hi = mid;
            }
        }
        lo as u32
    }
}

} // verus!
