//! World primitives: coordinates, no-spawn rectangles and the in-game clock
//! value. A coordinate is carried as the bit pattern of a single-precision
//! number, and compared as the number that pattern stands for.

use vstd::arithmetic::power2::*;
use vstd::prelude::*;

verus! {

/// Bit pattern of 27, the distance in game units within which agent clients
/// perceive nearby humans and monsters.
pub const NPC_SIGHT_RADIUS: u32 = 0x41d8_0000;

/// Bit pattern of 43, the distance in game units within which gameplay events
/// are delivered.
pub const EVENT_DELIVERY_RADIUS: u32 = 0x422c_0000;

/// A single-precision IEEE 754 number, held as its bit pattern.
#[derive(Debug, Clone, Copy)]
pub struct Scalar {
    pub bits: u32,
}

/// What the magnitude bits `m` (exponent and fraction) stand for, as a multiple
/// of the smallest positive single-precision number. The exponent of all ones
/// continues the scale, so infinity is larger than every finite magnitude.
pub open spec fn magnitude_value(m: nat) -> nat {
    let exponent = m / 0x80_0000;
    let fraction = m % 0x80_0000;
    if exponent == 0 {
        fraction
    } else {
        (0x80_0000 + fraction) * pow2((exponent - 1) as nat)
    }
}

impl Scalar {
    /// The exponent and fraction bits.
    pub open spec fn magnitude(self) -> nat {
        (self.bits as nat) % 0x8000_0000
    }

    /// The sign bit.
    pub open spec fn negative(self) -> bool {
        self.bits >= 0x8000_0000
    }

    /// Not a number: the exponent is all ones and the fraction is not zero.
    pub open spec fn nan(self) -> bool {
        self.magnitude() > 0x7f80_0000
    }

    /// Neither infinite nor a NaN.
    pub open spec fn finite(self) -> bool {
        self.magnitude() < 0x7f80_0000
    }

    /// The number this pattern stands for, as a multiple of the smallest
    /// positive single-precision number. Meaningful unless it is a NaN.
    pub open spec fn value(self) -> int {
        if self.negative() {
            -(magnitude_value(self.magnitude()) as int)
        } else {
            magnitude_value(self.magnitude()) as int
        }
    }

    /// At most `other`; false when either side is a NaN.
    pub open spec fn at_most(self, other: Scalar) -> bool {
        !self.nan() && !other.nan() && self.value() <= other.value()
    }

    /// The number with bit pattern `bits`.
    pub fn from_bits(bits: u32) -> (res: Scalar)
        ensures
            res == (Scalar { bits }),
    {
        Scalar { bits }
    }

    /// Whether this is neither infinite nor a NaN.
    pub fn is_finite(self) -> (res: bool)
        ensures
            res == self.finite(),
    {
        self.bits % 0x8000_0000 < 0x7f80_0000
    }

    /// Whether this number is at most `other`.
    pub fn le(self, other: Scalar) -> (res: bool)
        ensures
            res == self.at_most(other),
    {
        let a: u32 = self.bits % 0x8000_0000;
        let b: u32 = other.bits % 0x8000_0000;
        proof {
            lemma_magnitude_order(a as nat, b as nat);
            lemma_magnitude_order(b as nat, a as nat);
            lemma_magnitude_order(0, a as nat);
            lemma_magnitude_order(0, b as nat);
        }
        if a > 0x7f80_0000 || b > 0x7f80_0000 {
            return false;
        }
        if self.bits >= 0x8000_0000 {
            if other.bits >= 0x8000_0000 {
                b <= a
            } else {
                true
            }
        } else {
            if other.bits >= 0x8000_0000 {
                a == 0 && b == 0
            } else {
                a <= b
            }
        }
    }
}

/// Magnitude bits order as the numbers they stand for.
pub proof fn lemma_magnitude_order(a: nat, b: nat)
    ensures
        a < b ==> magnitude_value(a) < magnitude_value(b),
        magnitude_value(0) == 0,
{
    if a < b {
        let (ea, eb) = (a / 0x80_0000, b / 0x80_0000);
        let (fa, fb) = (a % 0x80_0000, b % 0x80_0000);
        if eb == 0 {
            assert(ea == 0);
        } else {
            let pb = pow2((eb - 1) as nat);
            lemma_pow2_pos((eb - 1) as nat);
            if ea == 0 {
                assert((0x80_0000 + fb) * pb >= 0x80_0000) by (nonlinear_arith)
                    requires
                        pb >= 1,
                        fb >= 0,
                ;
            } else {
                let pa = pow2((ea - 1) as nat);
                lemma_pow2_pos((ea - 1) as nat);
                if ea == eb {
                    assert(fa < fb);
                    assert((0x80_0000 + fa) * pa < (0x80_0000 + fb) * pa) by (nonlinear_arith)
                        requires
                            pa >= 1,
                            fa < fb,
                    ;
                } else {
                    assert(ea < eb);
                    lemma_pow2_unfold(ea);
                    if ea < eb - 1 {
                        lemma_pow2_strictly_increases(ea, (eb - 1) as nat);
                    }
                    assert(2 * pa <= pb);
                    assert((0x80_0000 + fa) * pa < (0x80_0000 + fb) * pb) by (nonlinear_arith)
                        requires
                            pa >= 1,
                            2 * pa <= pb,
                            0 <= fa < 0x80_0000,
                            fb >= 0,
                    ;
                }
            }
        }
    }
}

/// A point in the world.
#[derive(Debug, Clone, Copy)]
pub struct Position {
    pub x: Scalar,
    pub y: Scalar,
    pub z: Scalar,
}

impl Position {
    /// True when every component is a finite number (neither NaN nor infinite).
    pub fn is_finite(&self) -> (res: bool)
        ensures
            res == (self.x.finite() && self.y.finite() && self.z.finite()),
    {
        self.x.is_finite() && self.y.is_finite() && self.z.is_finite()
    }
}

/// Axis-aligned rectangular zone where monsters must not spawn (e.g. towns).
#[derive(Debug, Clone, Copy)]
pub struct NoSpawnZone {
    pub min_x: Scalar,
    pub min_z: Scalar,
    pub max_x: Scalar,
    pub max_z: Scalar,
}

impl NoSpawnZone {
    /// The point lies within the rectangle, its edges included.
    pub open spec fn covers(self, x: Scalar, z: Scalar) -> bool {
        &&& self.min_x.at_most(x)
        &&& x.at_most(self.max_x)
        &&& self.min_z.at_most(z)
        &&& z.at_most(self.max_z)
    }

    /// Whether the point lies within the rectangle, its edges included.
    pub fn contains(&self, x: Scalar, z: Scalar) -> (res: bool)
        ensures
            res == self.covers(x, z),
    {
        self.min_x.le(x) && x.le(self.max_x) && self.min_z.le(z) && z.le(self.max_z)
    }
}

/// A moment of the in-game calendar.
#[derive(Debug, Clone, Copy, PartialEq, Eq, Structural)]
pub struct GameDateTime {
    pub year: u32,
    pub month: u8,
    pub day: u8,
    pub hour: u8,
    pub minute: u8,
}

/// A point is never inside a zone it has a NaN coordinate for.
pub proof fn law_nan_is_in_no_zone(zone: NoSpawnZone, x: Scalar, z: Scalar)
    requires
        x.nan() || z.nan(),
    ensures
        !zone.covers(x, z),
{
}

/// A zone of zero area still covers its single point, and no other one.
pub proof fn law_point_zone(zone: NoSpawnZone, x: Scalar, z: Scalar)
    requires
        !zone.min_x.nan(),
        !zone.min_z.nan(),
        zone.max_x == zone.min_x,
        zone.max_z == zone.min_z,
    ensures
        zone.covers(zone.min_x, zone.min_z),
        zone.covers(x, z) <==> !x.nan() && !z.nan() && x.value() == zone.min_x.value() && z.value()
            == zone.min_z.value(),
{
}

/// Agent connections receive everything they perceive: the delivery radius is
/// at least the sight radius.
pub proof fn law_delivery_covers_sight()
    ensures
        (Scalar { bits: NPC_SIGHT_RADIUS }).at_most(Scalar { bits: EVENT_DELIVERY_RADIUS }),
{
    lemma_magnitude_order(NPC_SIGHT_RADIUS as nat, EVENT_DELIVERY_RADIUS as nat);
}

} // verus!
