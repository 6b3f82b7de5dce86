//! A 256-bit register as two 128-bit halves of four 32-bit lanes each, with
//! lane-wise arithmetic and the transposition of an 8 by 8 block of lanes.

use core::ops::{Add, AddAssign, BitOr, BitOrAssign, Mul, MulAssign, Sub};
use vstd::prelude::*;
use vstd::std_specs::convert::FromSpecImpl;
use vstd::std_specs::ops::{AddSpecImpl, BitOrSpecImpl, MulSpecImpl, SubSpecImpl};

verus! {

/// A 128-bit vector, read as four 32-bit lanes.
#[derive(Clone, Copy, Debug, PartialEq, Eq)]
pub struct V128 {
    pub lanes: [i32; 4],
}

impl V128 {
    /// The vector whose four lanes all hold `val`.
    pub open spec fn splat_of(val: i32) -> V128 {
        V128 { lanes: [val, val, val, val] }
    }

    /// Lane-wise sum, each lane wrapping at 32 bits.
    pub open spec fn sum(self, other: V128) -> V128 {
        V128 {
            lanes: [
                self.lanes[0].wrapping_add(other.lanes[0]),
                self.lanes[1].wrapping_add(other.lanes[1]),
                self.lanes[2].wrapping_add(other.lanes[2]),
                self.lanes[3].wrapping_add(other.lanes[3]),
            ],
        }
    }

    /// Lane-wise difference, each lane wrapping at 32 bits.
    pub open spec fn difference(self, other: V128) -> V128 {
        V128 {
            lanes: [
                self.lanes[0].wrapping_sub(other.lanes[0]),
                self.lanes[1].wrapping_sub(other.lanes[1]),
                self.lanes[2].wrapping_sub(other.lanes[2]),
                self.lanes[3].wrapping_sub(other.lanes[3]),
            ],
        }
    }

    /// Lane-wise product, each lane keeping its low 32 bits.
    pub open spec fn product(self, other: V128) -> V128 {
        V128 {
            lanes: [
                self.lanes[0].wrapping_mul(other.lanes[0]),
                self.lanes[1].wrapping_mul(other.lanes[1]),
                self.lanes[2].wrapping_mul(other.lanes[2]),
                self.lanes[3].wrapping_mul(other.lanes[3]),
            ],
        }
    }

    /// Lane-wise bitwise or.
    pub open spec fn union(self, other: V128) -> V128 {
        V128 {
            lanes: [
                self.lanes[0] | other.lanes[0],
                self.lanes[1] | other.lanes[1],
                self.lanes[2] | other.lanes[2],
                self.lanes[3] | other.lanes[3],
            ],
        }
    }

    /// Each lane shifted left by `n` modulo 32 bits.
    pub open spec fn shifted_left(self, n: u32) -> V128 {
        V128 {
            lanes: [
                self.lanes[0].wrapping_shl(n),
                self.lanes[1].wrapping_shl(n),
                self.lanes[2].wrapping_shl(n),
                self.lanes[3].wrapping_shl(n),
            ],
        }
    }

    /// Each lane shifted right by `n` modulo 32 bits, keeping its sign.
    pub open spec fn shifted_right(self, n: u32) -> V128 {
        V128 {
            lanes: [
                self.lanes[0].wrapping_shr(n),
                self.lanes[1].wrapping_shr(n),
                self.lanes[2].wrapping_shr(n),
                self.lanes[3].wrapping_shr(n),
            ],
        }
    }

    /// The vector whose four lanes all hold `val`.
    pub fn splat(val: i32) -> (r: V128)
        ensures
            r == V128::splat_of(val),
    {
        let r = V128 { lanes: [val, val, val, val] };
        assert(r.lanes =~= V128::splat_of(val).lanes);
        r
    }

    /// Lane-wise sum, each lane wrapping at 32 bits.
    pub fn wrapping_add(self, other: V128) -> (r: V128)
        ensures
            r == self.sum(other),
    {
        let r = V128 {
            lanes: [
                self.lanes[0].wrapping_add(other.lanes[0]),
                self.lanes[1].wrapping_add(other.lanes[1]),
                self.lanes[2].wrapping_add(other.lanes[2]),
                self.lanes[3].wrapping_add(other.lanes[3]),
            ],
        };
        assert(r.lanes =~= self.sum(other).lanes);
        r
    }

    /// Lane-wise difference, each lane wrapping at 32 bits.
    pub fn wrapping_sub(self, other: V128) -> (r: V128)
        ensures
            r == self.difference(other),
    {
        let r = V128 {
            lanes: [
                self.lanes[0].wrapping_sub(other.lanes[0]),
                self.lanes[1].wrapping_sub(other.lanes[1]),
                self.lanes[2].wrapping_sub(other.lanes[2]),
                self.lanes[3].wrapping_sub(other.lanes[3]),
            ],
        };
        assert(r.lanes =~= self.difference(other).lanes);
        r
    }

    /// Lane-wise product, each lane keeping its low 32 bits.
    pub fn wrapping_mul(self, other: V128) -> (r: V128)
        ensures
            r == self.product(other),
    {
        let r = V128 {
            lanes: [
                self.lanes[0].wrapping_mul(other.lanes[0]),
                self.lanes[1].wrapping_mul(other.lanes[1]),
                self.lanes[2].wrapping_mul(other.lanes[2]),
                self.lanes[3].wrapping_mul(other.lanes[3]),
            ],
        };
        assert(r.lanes =~= self.product(other).lanes);
        r
    }

    /// Lane-wise bitwise or.
    pub fn or(self, other: V128) -> (r: V128)
        ensures
            r == self.union(other),
    {
        let r = V128 {
            lanes: [
                self.lanes[0] | other.lanes[0],
                self.lanes[1] | other.lanes[1],
                self.lanes[2] | other.lanes[2],
                self.lanes[3] | other.lanes[3],
            ],
        };
        assert(r.lanes =~= self.union(other).lanes);
        r
    }

    /// Each lane shifted left by `n` modulo 32 bits.
    pub fn shl(self, n: u32) -> (r: V128)
        ensures
            r == self.shifted_left(n),
    {
        let r = V128 {
            lanes: [
                self.lanes[0].wrapping_shl(n),
                self.lanes[1].wrapping_shl(n),
                self.lanes[2].wrapping_shl(n),
                self.lanes[3].wrapping_shl(n),
            ],
        };
        assert(r.lanes =~= self.shifted_left(n).lanes);
        r
    }

    /// Each lane shifted right by `n` modulo 32 bits, keeping its sign.
    pub fn shr(self, n: u32) -> (r: V128)
        ensures
            r == self.shifted_right(n),
    {
        let r = V128 {
            lanes: [
                self.lanes[0].wrapping_shr(n),
                self.lanes[1].wrapping_shr(n),
                self.lanes[2].wrapping_shr(n),
                self.lanes[3].wrapping_shr(n),
            ],
        };
        assert(r.lanes =~= self.shifted_right(n).lanes);
        r
    }
}

/// A 256-bit register: eight 32-bit lanes, the first four in `v0` and the
/// last four in `v1`.
#[derive(Clone, Copy, Debug, PartialEq, Eq)]
pub struct YmmRegister {
    pub v0: V128,
    pub v1: V128,
}

impl YmmRegister {
    /// Lane `i` of the register, counted from 0 to 7.
    pub open spec fn lane(self, i: int) -> i32 {
        if i < 4 {
            self.v0.lanes[i]
        } else {
            self.v1.lanes[i - 4]
        }
    }

    /// The register whose eight lanes all hold `val`.
    pub open spec fn splat_of(val: i32) -> YmmRegister {
        YmmRegister { v0: V128::splat_of(val), v1: V128::splat_of(val) }
    }

    /// Lane-wise sum, each lane wrapping at 32 bits.
    pub open spec fn sum(self, other: YmmRegister) -> YmmRegister {
        YmmRegister { v0: self.v0.sum(other.v0), v1: self.v1.sum(other.v1) }
    }

    /// Lane-wise difference, each lane wrapping at 32 bits.
    pub open spec fn difference(self, other: YmmRegister) -> YmmRegister {
        YmmRegister { v0: self.v0.difference(other.v0), v1: self.v1.difference(other.v1) }
    }

    /// Lane-wise product, each lane keeping its low 32 bits.
    pub open spec fn product(self, other: YmmRegister) -> YmmRegister {
        YmmRegister { v0: self.v0.product(other.v0), v1: self.v1.product(other.v1) }
    }

    /// Lane-wise bitwise or.
    pub open spec fn union(self, other: YmmRegister) -> YmmRegister {
        YmmRegister { v0: self.v0.union(other.v0), v1: self.v1.union(other.v1) }
    }

    /// Applies `f` to the lower halves of the two registers and to their
    /// upper halves, and joins the two results.
    pub fn map2(self, other: Self, f: impl Fn(V128, V128) -> V128) -> (r: Self)
        requires
            f.requires((self.v0, other.v0)),
            f.requires((self.v1, other.v1)),
        ensures
            f.ensures((self.v0, other.v0), r.v0),
            f.ensures((self.v1, other.v1), r.v1),
    {
        YmmRegister { v0: f(self.v0, other.v0), v1: f(self.v1, other.v1) }
    }

    /// Reads a register from eight consecutive values.
    pub fn load(src: &[i32; 8]) -> (r: Self)
        ensures
            forall|i: int| 0 <= i < 8 ==> r.lane(i) == src[i],
    {
        YmmRegister {
            v0: V128 { lanes: [src[0], src[1], src[2], src[3]] },
            v1: V128 { lanes: [src[4], src[5], src[6], src[7]] },
        }
    }

    /// Every lane shifted left by `N` modulo 32 bits.
    pub fn const_shl<const N: u32>(self) -> (r: Self)
        ensures
            r == (YmmRegister { v0: self.v0.shifted_left(N), v1: self.v1.shifted_left(N) }),
            forall|i: int| 0 <= i < 8 ==> r.lane(i) == self.lane(i).wrapping_shl(N),
    {
        YmmRegister { v0: self.v0.shl(N), v1: self.v1.shl(N) }
    }

    /// Every lane shifted right by `N` modulo 32 bits, keeping its sign.
    pub fn const_shra<const N: u32>(self) -> (r: Self)
        ensures
            r == (YmmRegister { v0: self.v0.shifted_right(N), v1: self.v1.shifted_right(N) }),
            forall|i: int| 0 <= i < 8 ==> r.lane(i) == self.lane(i).wrapping_shr(N),
    {
        YmmRegister { v0: self.v0.shr(N), v1: self.v1.shr(N) }
    }

    /// Whether all eight lanes are zero.
    pub fn all_zero(self) -> (b: bool)
        ensures
            b <==> forall|i: int| 0 <= i < 8 ==> self.lane(i) == 0,
    {
        let both = self.v0.or(self.v1);
        proof {
            assert forall|a: i32, b: i32| (#[trigger] (a | b) == 0) <==> (a == 0 && b == 0) by {
                assert(((a | b) == 0) <==> (a == 0 && b == 0)) by (bit_vector);
            }
        }
        let b = both.lanes[0] == 0 && both.lanes[1] == 0 && both.lanes[2] == 0 && both.lanes[3]
            == 0;
        proof {
            if b {
                assert forall|i: int| 0 <= i < 8 implies self.lane(i) == 0 by {
                    if i < 4 {
                        assert(both.lanes[i] == self.v0.lanes[i] | self.v1.lanes[i]);
                    } else {
                        assert(both.lanes[i - 4] == self.v0.lanes[i - 4] | self.v1.lanes[i - 4]);
                    }
                }
            } else {
                if both.lanes[0] != 0 {
                    assert(self.lane(0) != 0 || self.lane(4) != 0);
                } else if both.lanes[1] != 0 {
                    assert(self.lane(1) != 0 || self.lane(5) != 0);
                } else if both.lanes[2] != 0 {
                    assert(self.lane(2) != 0 || self.lane(6) != 0);
                } else {
                    assert(self.lane(3) != 0 || self.lane(7) != 0);
                }
            }
        }
        b
    }
}

impl From<i32> for YmmRegister {
    /// The register whose eight lanes all hold `val`.
    fn from(val: i32) -> (r: YmmRegister) {
        let dup = V128::splat(val);
        YmmRegister { v0: dup, v1: dup }
    }
}

impl FromSpecImpl<i32> for YmmRegister {
    open spec fn obeys_from_spec() -> bool {
        true
    }

    open spec fn from_spec(val: i32) -> YmmRegister {
        YmmRegister::splat_of(val)
    }
}

impl Add<YmmRegister> for YmmRegister {
    type Output = YmmRegister;

    /// Lane-wise sum, each lane wrapping at 32 bits.
    fn add(self, rhs: YmmRegister) -> (r: YmmRegister) {
        self.map2(rhs, |a: V128, b: V128| -> (c: V128)
            ensures
                c == a.sum(b),
            { a.wrapping_add(b) })
    }
}

impl AddSpecImpl<YmmRegister> for YmmRegister {
    open spec fn obeys_add_spec() -> bool {
        true
    }

    open spec fn add_req(self, rhs: YmmRegister) -> bool {
        true
    }

    open spec fn add_spec(self, rhs: YmmRegister) -> YmmRegister {
        self.sum(rhs)
    }
}

impl Add<i32> for YmmRegister {
    type Output = YmmRegister;

    /// Adds `rhs` to every lane, each lane wrapping at 32 bits.
    fn add(self, rhs: i32) -> (r: YmmRegister) {
        let rhs = YmmRegister::from(rhs);
        self.map2(rhs, |a: V128, b: V128| -> (c: V128)
            ensures
                c == a.sum(b),
            { a.wrapping_add(b) })
    }
}

impl AddSpecImpl<i32> for YmmRegister {
    open spec fn obeys_add_spec() -> bool {
        true
    }

    open spec fn add_req(self, rhs: i32) -> bool {
        true
    }

    open spec fn add_spec(self, rhs: i32) -> YmmRegister {
        self.sum(YmmRegister::splat_of(rhs))
    }
}

impl Sub<YmmRegister> for YmmRegister {
    type Output = YmmRegister;

    /// Lane-wise difference, each lane wrapping at 32 bits.
    fn sub(self, rhs: YmmRegister) -> (r: YmmRegister) {
        self.map2(rhs, |a: V128, b: V128| -> (c: V128)
            ensures
                c == a.difference(b),
            { a.wrapping_sub(b) })
    }
}

impl SubSpecImpl<YmmRegister> for YmmRegister {
    open spec fn obeys_sub_spec() -> bool {
        true
    }

    open spec fn sub_req(self, rhs: YmmRegister) -> bool {
        true
    }

    open spec fn sub_spec(self, rhs: YmmRegister) -> YmmRegister {
        self.difference(rhs)
    }
}

impl Sub<i32> for YmmRegister {
    type Output = YmmRegister;

    /// Subtracts `rhs` from every lane, each lane wrapping at 32 bits.
    fn sub(self, rhs: i32) -> (r: YmmRegister) {
        let rhs = YmmRegister::from(rhs);
        self.map2(rhs, |a: V128, b: V128| -> (c: V128)
            ensures
                c == a.difference(b),
            { a.wrapping_sub(b) })
    }
}

impl SubSpecImpl<i32> for YmmRegister {
    open spec fn obeys_sub_spec() -> bool {
        true
    }

    open spec fn sub_req(self, rhs: i32) -> bool {
        true
    }

    open spec fn sub_spec(self, rhs: i32) -> YmmRegister {
        self.difference(YmmRegister::splat_of(rhs))
    }
}

impl Mul<YmmRegister> for YmmRegister {
    type Output = YmmRegister;

    /// Lane-wise product, each lane keeping its low 32 bits.
    fn mul(self, rhs: YmmRegister) -> (r: YmmRegister) {
        self.map2(rhs, |a: V128, b: V128| -> (c: V128)
            ensures
                c == a.product(b),
            { a.wrapping_mul(b) })
    }
}

impl MulSpecImpl<YmmRegister> for YmmRegister {
    open spec fn obeys_mul_spec() -> bool {
        true
    }

    open spec fn mul_req(self, rhs: YmmRegister) -> bool {
        true
    }

    open spec fn mul_spec(self, rhs: YmmRegister) -> YmmRegister {
        self.product(rhs)
    }
}

impl Mul<i32> for YmmRegister {
    type Output = YmmRegister;

    /// Multiplies every lane by `rhs`, each lane keeping its low 32 bits.
    fn mul(self, rhs: i32) -> (r: YmmRegister) {
        let rhs = YmmRegister::from(rhs);
        self.map2(rhs, |a: V128, b: V128| -> (c: V128)
            ensures
                c == a.product(b),
            { a.wrapping_mul(b) })
    }
}

impl MulSpecImpl<i32> for YmmRegister {
    open spec fn obeys_mul_spec() -> bool {
        true
    }

    open spec fn mul_req(self, rhs: i32) -> bool {
        true
    }

    open spec fn mul_spec(self, rhs: i32) -> YmmRegister {
        self.product(YmmRegister::splat_of(rhs))
    }
}

impl BitOr<YmmRegister> for YmmRegister {
    type Output = YmmRegister;

    /// Lane-wise bitwise or.
    fn bitor(self, rhs: YmmRegister) -> (r: YmmRegister) {
        self.map2(rhs, |a: V128, b: V128| -> (c: V128)
            ensures
                c == a.union(b),
            { a.or(b) })
    }
}

impl BitOrSpecImpl<YmmRegister> for YmmRegister {
    open spec fn obeys_bitor_spec() -> bool {
        true
    }

    open spec fn bitor_req(self, rhs: YmmRegister) -> bool {
        true
    }

    open spec fn bitor_spec(self, rhs: YmmRegister) -> YmmRegister {
        self.union(rhs)
    }
}

impl BitOr<i32> for YmmRegister {
    type Output = YmmRegister;

    /// Ors `rhs` into every lane.
    fn bitor(self, rhs: i32) -> (r: YmmRegister) {
        let rhs = YmmRegister::from(rhs);
        self.map2(rhs, |a: V128, b: V128| -> (c: V128)
            ensures
                c == a.union(b),
            { a.or(b) })
    }
}

impl BitOrSpecImpl<i32> for YmmRegister {
    open spec fn obeys_bitor_spec() -> bool {
        true
    }

    open spec fn bitor_req(self, rhs: i32) -> bool {
        true
    }

    open spec fn bitor_spec(self, rhs: i32) -> YmmRegister {
        self.union(YmmRegister::splat_of(rhs))
    }
}

impl AddAssign<YmmRegister> for YmmRegister {
    /// Adds `rhs` to this register lane by lane.
    fn add_assign(&mut self, rhs: YmmRegister)
        ensures
            *final(self) == old(self).sum(rhs),
    {
        *self = self.map2(rhs, |a: V128, b: V128| -> (c: V128)
            ensures
                c == a.sum(b),
            { a.wrapping_add(b) });
    }
}

impl AddAssign<i32> for YmmRegister {
    /// Adds `rhs` to every lane of this register.
    fn add_assign(&mut self, rhs: i32)
        ensures
            *final(self) == old(self).sum(YmmRegister::splat_of(rhs)),
    {
        let rhs = YmmRegister::from(rhs);
        *self = self.map2(rhs, |a: V128, b: V128| -> (c: V128)
            ensures
                c == a.sum(b),
            { a.wrapping_add(b) });
    }
}

impl MulAssign<YmmRegister> for YmmRegister {
    /// Multiplies this register by `rhs` lane by lane.
    fn mul_assign(&mut self, rhs: YmmRegister)
        ensures
            *final(self) == old(self).product(rhs),
    {
        *self = self.map2(rhs, |a: V128, b: V128| -> (c: V128)
            ensures
                c == a.product(b),
            { a.wrapping_mul(b) });
    }
}

impl MulAssign<i32> for YmmRegister {
    /// Multiplies every lane of this register by `rhs`.
    fn mul_assign(&mut self, rhs: i32)
        ensures
            *final(self) == old(self).product(YmmRegister::splat_of(rhs)),
    {
        let rhs = YmmRegister::from(rhs);
        *self = self.map2(rhs, |a: V128, b: V128| -> (c: V128)
            ensures
                c == a.product(b),
            { a.wrapping_mul(b) });
    }
}

impl BitOrAssign<YmmRegister> for YmmRegister {
    /// Ors `rhs` into this register lane by lane.
    fn bitor_assign(&mut self, rhs: YmmRegister)
        ensures
            *final(self) == old(self).union(rhs),
    {
        *self = self.map2(rhs, |a: V128, b: V128| -> (c: V128)
            ensures
                c == a.union(b),
            { a.or(b) });
    }
}

impl BitOrAssign<i32> for YmmRegister {
    /// Ors `rhs` into every lane of this register.
    fn bitor_assign(&mut self, rhs: i32)
        ensures
            *final(self) == old(self).union(YmmRegister::splat_of(rhs)),
    {
        let rhs = YmmRegister::from(rhs);
        *self = self.map2(rhs, |a: V128, b: V128| -> (c: V128)
            ensures
                c == a.union(b),
            { a.or(b) });
    }
}

/// The register among eight that has number `i`.
pub open spec fn row_of(
    r0: YmmRegister,
    r1: YmmRegister,
    r2: YmmRegister,
    r3: YmmRegister,
    r4: YmmRegister,
    r5: YmmRegister,
    r6: YmmRegister,
    r7: YmmRegister,
    i: int,
) -> YmmRegister {
    if i == 0 {
        r0
    } else if i == 1 {
        r1
    } else if i == 2 {
        r2
    } else if i == 3 {
        r3
    } else if i == 4 {
        r4
    } else if i == 5 {
        r5
    } else if i == 6 {
        r6
    } else {
        r7
    }
}

/// The vector among four that has number `i`.
pub open spec fn quad_of(q0: V128, q1: V128, q2: V128, q3: V128, i: int) -> V128 {
    if i == 0 {
        q0
    } else if i == 1 {
        q1
    } else if i == 2 {
        q2
    } else {
        q3
    }
}

/// Transposes a 4 by 4 block of lanes held in four vectors.
pub fn transpose4(v0: &mut V128, v1: &mut V128, v2: &mut V128, v3: &mut V128)
    ensures
        forall|i: int, j: int|
            0 <= i < 4 && 0 <= j < 4 ==> quad_of(
                *final(v0),
                *final(v1),
                *final(v2),
                *final(v3),
                i,
            ).lanes[j] == quad_of(*old(v0), *old(v1), *old(v2), *old(v3), j).lanes[i],
{
    // the 64-bit halves change places
    let w0 = V128 { lanes: [v0.lanes[0], v0.lanes[1], v2.lanes[0], v2.lanes[1]] };
    let w1 = V128 { lanes: [v1.lanes[0], v1.lanes[1], v3.lanes[0], v3.lanes[1]] };
    let w2 = V128 { lanes: [v0.lanes[2], v0.lanes[3], v2.lanes[2], v2.lanes[3]] };
    let w3 = V128 { lanes: [v1.lanes[2], v1.lanes[3], v3.lanes[2], v3.lanes[3]] };
    // the 32-bit lanes inside each half interleave
    *v0 = V128 { lanes: [w0.lanes[0], w1.lanes[0], w0.lanes[2], w1.lanes[2]] };
    *v1 = V128 { lanes: [w0.lanes[1], w1.lanes[1], w0.lanes[3], w1.lanes[3]] };
    *v2 = V128 { lanes: [w2.lanes[0], w3.lanes[0], w2.lanes[2], w3.lanes[2]] };
    *v3 = V128 { lanes: [w2.lanes[1], w3.lanes[1], w2.lanes[3], w3.lanes[3]] };
}

/// Transposes an 8 by 8 block of lanes held in eight registers: afterwards
/// lane `j` of register `i` holds what lane `i` of register `j` held.
///
/// The upper right and lower left quadrants change places, then each of the
/// four quadrants is transposed.
pub fn transpose(
    v0: &mut YmmRegister,
    v1: &mut YmmRegister,
    v2: &mut YmmRegister,
    v3: &mut YmmRegister,
    v4: &mut YmmRegister,
    v5: &mut YmmRegister,
    v6: &mut YmmRegister,
    v7: &mut YmmRegister,
)
    ensures
        forall|i: int, j: int|
            0 <= i < 8 && 0 <= j < 8 ==> row_of(
                *final(v0),
                *final(v1),
                *final(v2),
                *final(v3),
                *final(v4),
                *final(v5),
                *final(v6),
                *final(v7),
                i,
            ).lane(j) == row_of(
                *old(v0),
                *old(v1),
                *old(v2),
                *old(v3),
                *old(v4),
                *old(v5),
                *old(v6),
                *old(v7),
                j,
            ).lane(i),
{
    core::mem::swap(&mut v0.v1, &mut v4.v0);
    core::mem::swap(&mut v1.v1, &mut v5.v0);
    core::mem::swap(&mut v2.v1, &mut v6.v0);
    core::mem::swap(&mut v3.v1, &mut v7.v0);
    let ghost (a0, a1, a2, a3) = (*v0, *v1, *v2, *v3);
    let ghost (a4, a5, a6, a7) = (*v4, *v5, *v6, *v7);

    transpose4(&mut v0.v0, &mut v1.v0, &mut v2.v0, &mut v3.v0);
    transpose4(&mut v0.v1, &mut v1.v1, &mut v2.v1, &mut v3.v1);
    transpose4(&mut v4.v0, &mut v5.v0, &mut v6.v0, &mut v7.v0);
    transpose4(&mut v4.v1, &mut v5.v1, &mut v6.v1, &mut v7.v1);

    proof {
        assert forall|i: int, j: int| 0 <= i < 8 && 0 <= j < 8 implies row_of(
            *v0,
            *v1,
            *v2,
            *v3,
            *v4,
            *v5,
            *v6,
            *v7,
            i,
        ).lane(j) == row_of(
            *old(v0),
            *old(v1),
            *old(v2),
            *old(v3),
            *old(v4),
            *old(v5),
            *old(v6),
            *old(v7),
            j,
        ).lane(i) by {
            if i < 4 && j < 4 {
                assert(quad_of(v0.v0, v1.v0, v2.v0, v3.v0, i).lanes[j] == quad_of(
                    a0.v0,
                    a1.v0,
                    a2.v0,
                    a3.v0,
                    j,
                ).lanes[i]);
            } else if i < 4 {
                assert(quad_of(v0.v1, v1.v1, v2.v1, v3.v1, i).lanes[j - 4] == quad_of(
                    a0.v1,
                    a1.v1,
                    a2.v1,
                    a3.v1,
                    j - 4,
                ).lanes[i]);
            } else if j < 4 {
                assert(quad_of(v4.v0, v5.v0, v6.v0, v7.v0, i - 4).lanes[j] == quad_of(
                    a4.v0,
                    a5.v0,
                    a6.v0,
                    a7.v0,
                    j,
                ).lanes[i - 4]);
            } else {
                assert(quad_of(v4.v1, v5.v1, v6.v1, v7.v1, i - 4).lanes[j - 4] == quad_of(
                    a4.v1,
                    a5.v1,
                    a6.v1,
                    a7.v1,
                    j - 4,
                ).lanes[i - 4]);
            }
        }
    }
}

} // verus!
