//! Unsigned 256-bit integers, held as four 64-bit limbs, least significant first.

use vstd::prelude::*;

verus! {

/// `2^64`, the weight of the second limb.
pub open spec fn pow64() -> nat {
    0x1_0000_0000_0000_0000nat
}

/// `2^128`, the weight of the third limb.
pub open spec fn pow128() -> nat {
    0x1_0000_0000_0000_0000_0000_0000_0000_0000nat
}

/// `2^192`, the weight of the fourth limb.
pub open spec fn pow192() -> nat {
    0x1_0000_0000_0000_0000_0000_0000_0000_0000_0000_0000_0000_0000nat
}

/// `2^256`, one more than the largest value a [`U256`] holds.
pub open spec fn pow256() -> nat {
    0x1_0000_0000_0000_0000_0000_0000_0000_0000_0000_0000_0000_0000_0000_0000_0000_0000nat
}

/// The number that four limbs stand for.
pub open spec fn limbs_value(l0: u64, l1: u64, l2: u64, l3: u64) -> nat {
    (l0 as nat) + (l1 as nat) * pow64() + (l2 as nat) * pow128() + (l3 as nat) * pow192()
}

/// An unsigned integer below `2^256`.
#[derive(Clone, Copy, Debug, PartialEq, Eq, Structural, Hash)]
pub struct U256 {
    l0: u64,
    l1: u64,
    l2: u64,
    l3: u64,
}

impl View for U256 {
    type V = nat;

    closed spec fn view(&self) -> nat {
        limbs_value(self.l0, self.l1, self.l2, self.l3)
    }
}

/// Adds two limbs and a carry: `a + b + carry_in == sum + carry_out * 2^64`.
fn add_limb(a: u64, b: u64, carry_in: bool) -> (r: (u64, bool))
    ensures
        a + b + (if carry_in { 1int } else { 0int })
            == r.0 + (if r.1 { pow64() as int } else { 0int }),
{
    let c: u64 = if carry_in { 1 } else { 0 };
    if a > u64::MAX - b {
        // a + b >= 2^64, and a + b - 2^64 + c still fits
        let low: u64 = a - (u64::MAX - b) - 1;
        (low + c, true)
    } else {
        let s: u64 = a + b;
        if s > u64::MAX - c {
            (0, true)
        } else {
            (s + c, false)
        }
    }
}

/// Subtracts a limb and a borrow: `a - b - borrow_in == diff - borrow_out * 2^64`.
fn sub_limb(a: u64, b: u64, borrow_in: bool) -> (r: (u64, bool))
    ensures
        a - b - (if borrow_in { 1int } else { 0int })
            == r.0 - (if r.1 { pow64() as int } else { 0int }),
{
    let c: u64 = if borrow_in { 1 } else { 0 };
    if a >= b {
        let d: u64 = a - b;
        if d >= c {
            (d - c, false)
        } else {
            (u64::MAX, true)
        }
    } else {
        // a - b < 0: add 2^64
        let d: u64 = u64::MAX - (b - a) + 1;
        (d - c, true)
    }
}

impl U256 {
    /// Two values are the same number exactly when their limbs agree.
    pub proof fn lemma_view_injective(a: U256, b: U256)
        ensures
            (a@ == b@) <==> (a == b),
    {
        if a@ == b@ {
            assert(a.l3 == b.l3) by {
                if a.l3 < b.l3 {
                    assert(a@ < (a.l3 as nat + 1) * pow192());
                    assert(b@ >= (b.l3 as nat) * pow192());
                    assert((a.l3 as nat + 1) * pow192() <= (b.l3 as nat) * pow192()) by (nonlinear_arith)
                        requires a.l3 < b.l3;
                }
                if b.l3 < a.l3 {
                    assert(b@ < (b.l3 as nat + 1) * pow192());
                    assert(a@ >= (a.l3 as nat) * pow192());
                    assert((b.l3 as nat + 1) * pow192() <= (a.l3 as nat) * pow192()) by (nonlinear_arith)
                        requires b.l3 < a.l3;
                }
            }
            assert(a.l2 == b.l2);
            assert(a.l1 == b.l1);
            assert(a.l0 == b.l0);
        }
    }

    /// Every value is below `2^256`.
    pub proof fn lemma_view_bound(a: U256)
        ensures
            a@ < pow256(),
    {
    }

    /// The value whose limbs are given, least significant first.
    pub fn from_limbs(limbs: [u64; 4]) -> (r: U256)
        ensures
            r@ == limbs_value(limbs[0], limbs[1], limbs[2], limbs[3]),
            r.limbs_spec() == limbs@,
    {
        U256 { l0: limbs[0], l1: limbs[1], l2: limbs[2], l3: limbs[3] }
    }

    /// The four limbs, least significant first.
    pub closed spec fn limbs_spec(&self) -> Seq<u64> {
        seq![self.l0, self.l1, self.l2, self.l3]
    }

    /// The four limbs, least significant first.
    pub fn into_limbs(self) -> (r: [u64; 4])
        ensures
            r@ == self.limbs_spec(),
            self@ == limbs_value(r[0], r[1], r[2], r[3]),
    {
        let r: [u64; 4] = [self.l0, self.l1, self.l2, self.l3];
        assert(r@ =~= self.limbs_spec());
        r
    }

    /// Zero.
    pub fn zero() -> (r: U256)
        ensures
            r@ == 0,
    {
        U256 { l0: 0, l1: 0, l2: 0, l3: 0 }
    }

    /// One.
    pub fn one() -> (r: U256)
        ensures
            r@ == 1,
    {
        U256 { l0: 1, l1: 0, l2: 0, l3: 0 }
    }

    /// The value of a 64-bit integer.
    pub closed spec fn spec_from_u64(v: u64) -> U256 {
        U256 { l0: v, l1: 0, l2: 0, l3: 0 }
    }

    /// `spec_from_u64` keeps the number.
    pub broadcast proof fn lemma_spec_from_u64(v: u64)
        ensures
            (#[trigger] U256::spec_from_u64(v))@ == v,
    {
    }

    /// The value of a 64-bit integer.
    pub fn from_u64(v: u64) -> (r: U256)
        ensures
            r@ == v,
            r == U256::spec_from_u64(v),
    {
        U256 { l0: v, l1: 0, l2: 0, l3: 0 }
    }

    /// Whether the value is zero.
    pub fn is_zero(&self) -> (r: bool)
        ensures
            r == (self@ == 0),
    {
        self.l0 == 0 && self.l1 == 0 && self.l2 == 0 && self.l3 == 0
    }

    /// Whether two values are the same number.
    pub fn equals(&self, other: &U256) -> (r: bool)
        ensures
            r == (self@ == other@),
    {
        proof {
            Self::lemma_view_injective(*self, *other);
        }
        self.l0 == other.l0 && self.l1 == other.l1 && self.l2 == other.l2 && self.l3 == other.l3
    }

    /// Whether `self < other`.
    pub fn lt(&self, other: &U256) -> (r: bool)
        ensures
            r == (self@ < other@),
    {
        proof {
            Self::lemma_view_injective(*self, *other);
            Self::lemma_order(*self, *other);
            Self::lemma_order(*other, *self);
        }
        if self.l3 != other.l3 {
            self.l3 < other.l3
        } else if self.l2 != other.l2 {
            self.l2 < other.l2
        } else if self.l1 != other.l1 {
            self.l1 < other.l1
        } else {
            self.l0 < other.l0
        }
    }

    /// Whether `self <= other`.
    pub fn le(&self, other: &U256) -> (r: bool)
        ensures
            r == (self@ <= other@),
    {
        !other.lt(self)
    }

    /// Whether `self > other`.
    pub fn gt(&self, other: &U256) -> (r: bool)
        ensures
            r == (self@ > other@),
    {
        other.lt(self)
    }

    /// Whether `self >= other`.
    pub fn ge(&self, other: &U256) -> (r: bool)
        ensures
            r == (self@ >= other@),
    {
        !self.lt(other)
    }

    /// The limbs order the values: the most significant limb that differs decides.
    proof fn lemma_order(a: U256, b: U256)
        ensures
            a.l3 < b.l3 ==> a@ < b@,
            a.l3 == b.l3 && a.l2 < b.l2 ==> a@ < b@,
            a.l3 == b.l3 && a.l2 == b.l2 && a.l1 < b.l1 ==> a@ < b@,
            a.l3 == b.l3 && a.l2 == b.l2 && a.l1 == b.l1 && a.l0 < b.l0 ==> a@ < b@,
    {
        if a.l3 < b.l3 {
            assert((a.l3 as nat + 1) * pow192() <= (b.l3 as nat) * pow192()) by (nonlinear_arith)
                requires a.l3 < b.l3;
        }
        if a.l2 < b.l2 {
            assert((a.l2 as nat + 1) * pow128() <= (b.l2 as nat) * pow128()) by (nonlinear_arith)
                requires a.l2 < b.l2;
        }
        if a.l1 < b.l1 {
            assert((a.l1 as nat + 1) * pow64() <= (b.l1 as nat) * pow64()) by (nonlinear_arith)
                requires a.l1 < b.l1;
        }
    }

    /// The larger of two values.
    pub fn max(self, other: U256) -> (r: U256)
        ensures
            r@ == if self@ >= other@ { self@ } else { other@ },
            r == self || r == other,
    {
        if self.ge(&other) { self } else { other }
    }

    /// The sum, or `None` where it does not fit.
    pub fn checked_add(&self, other: &U256) -> (r: Option<U256>)
        ensures
            self@ + other@ < pow256() ==> r is Some && r->0@ == self@ + other@,
            self@ + other@ >= pow256() ==> r is None,
    {
        let (l0, c0) = add_limb(self.l0, other.l0, false);
        let (l1, c1) = add_limb(self.l1, other.l1, c0);
        let (l2, c2) = add_limb(self.l2, other.l2, c1);
        let (l3, c3) = add_limb(self.l3, other.l3, c2);
        let s = U256 { l0, l1, l2, l3 };
        assert(self@ + other@ == s@ + (if c3 { pow256() as int } else { 0int }));
        if c3 {
            None
        } else {
            Some(s)
        }
    }

    /// The sum modulo `2^256`.
    pub fn wrapping_add(&self, other: &U256) -> (r: U256)
        ensures
            r@ == (self@ + other@) % pow256(),
    {
        let (l0, c0) = add_limb(self.l0, other.l0, false);
        let (l1, c1) = add_limb(self.l1, other.l1, c0);
        let (l2, c2) = add_limb(self.l2, other.l2, c1);
        let (l3, c3) = add_limb(self.l3, other.l3, c2);
        let s = U256 { l0, l1, l2, l3 };
        assert(self@ + other@ == s@ + (if c3 { pow256() as int } else { 0int }));
        s
    }

    /// The difference, or zero where `other` is the larger.
    pub fn saturating_sub(&self, other: &U256) -> (r: U256)
        ensures
            r@ == if self@ >= other@ { self@ - other@ } else { 0 },
    {
        let (l0, b0) = sub_limb(self.l0, other.l0, false);
        let (l1, b1) = sub_limb(self.l1, other.l1, b0);
        let (l2, b2) = sub_limb(self.l2, other.l2, b1);
        let (l3, b3) = sub_limb(self.l3, other.l3, b2);
        let d = U256 { l0, l1, l2, l3 };
        assert(self@ - other@ == d@ - (if b3 { pow256() as int } else { 0int }));
        if b3 {
            U256::zero()
        } else {
            d
        }
    }

    /// The difference, or `None` where `other` is the larger.
    pub fn checked_sub(&self, other: &U256) -> (r: Option<U256>)
        ensures
            self@ >= other@ ==> r is Some && r->0@ == self@ - other@,
            self@ < other@ ==> r is None,
    {
        let (l0, b0) = sub_limb(self.l0, other.l0, false);
        let (l1, b1) = sub_limb(self.l1, other.l1, b0);
        let (l2, b2) = sub_limb(self.l2, other.l2, b1);
        let (l3, b3) = sub_limb(self.l3, other.l3, b2);
        let d = U256 { l0, l1, l2, l3 };
        assert(self@ - other@ == d@ - (if b3 { pow256() as int } else { 0int }));
        if b3 {
            None
        } else {
            Some(d)
        }
    }

    /// The value as a 64-bit integer, or `None` where it does not fit.
    pub fn to_u64(&self) -> (r: Option<u64>)
        ensures
            self@ <= u64::MAX ==> r == Some(self@ as u64),
            self@ > u64::MAX ==> r is None,
    {
        if self.l1 == 0 && self.l2 == 0 && self.l3 == 0 {
            Some(self.l0)
        } else {
            None
        }
    }
}

impl From<u64> for U256 {
    fn from(v: u64) -> (r: U256) {
        U256::from_u64(v)
    }
}

impl vstd::std_specs::convert::FromSpecImpl<u64> for U256 {
    open spec fn obeys_from_spec() -> bool {
        true
    }

    open spec fn from_spec(v: u64) -> U256 {
        U256::spec_from_u64(v)
    }
}

} // verus!
