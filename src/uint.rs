//! 256-bit unsigned amounts, as four 64-bit limbs.
use vstd::prelude::*;
use vstd::pervasive::unreached;

verus! {

/// 2^64, the weight of one limb.
pub open spec fn limb_base() -> nat {
    0x1_0000_0000_0000_0000nat
}

/// The largest 256-bit unsigned value, 2^256 - 1.
pub open spec fn u256_max() -> nat {
    0xffff_ffff_ffff_ffff_ffff_ffff_ffff_ffff_ffff_ffff_ffff_ffff_ffff_ffff_ffff_ffffnat
}

/// A 256-bit unsigned integer. `limbs[0]` is the least significant limb.
#[derive(Clone, Copy, Debug)]
pub struct U256 {
    pub limbs: [u64; 4],
}

impl View for U256 {
    type V = nat;

    open spec fn view(&self) -> nat {
        self.limbs[0] as nat + limb_base() * (self.limbs[1] as nat + limb_base() * (
        self.limbs[2] as nat + limb_base() * self.limbs[3] as nat))
    }
}

/// Every amount lies in the 256-bit range.
pub proof fn lemma_u256_range(a: U256)
    ensures
        a@ <= u256_max(),
{
    let b = limb_base() as int;
    assert(a.limbs[3] < b && a.limbs[2] < b && a.limbs[1] < b && a.limbs[0] < b);
    let t3 = a.limbs[3] as int;
    let t2 = a.limbs[2] as int + b * t3;
    let t1 = a.limbs[1] as int + b * t2;
    assert(t3 <= b - 1);
    assert(b * t3 <= b * (b - 1)) by (nonlinear_arith)
        requires t3 <= b - 1, b > 0;
    assert(t2 <= b * b - 1);
    assert(b * t2 <= b * (b * b - 1)) by (nonlinear_arith)
        requires t2 <= b * b - 1, b > 0;
    assert(t1 <= b * b * b - 1);
    assert(b * t1 <= b * (b * b * b - 1)) by (nonlinear_arith)
        requires t1 <= b * b * b - 1, b > 0;
    assert(b * b * b * b - 1 == u256_max());
}

/// `x + w * y` grows strictly with `y`, whatever the lower part `x < w`.
proof fn lemma_place_order(w: int, x: int, y: int, x2: int, y2: int)
    requires
        w > 0,
        0 <= x < w,
        0 <= x2 < w,
        y < y2,
    ensures
        x + w * y < x2 + w * y2,
{
    assert(w * y + w <= w * y2) by (nonlinear_arith)
        requires y < y2, w > 0;
}

/// Two amounts are ordered as their most significant differing limbs are.
proof fn lemma_limb_order(a: U256, b: U256, k: int)
    requires
        0 <= k < 4,
        a.limbs[k] < b.limbs[k],
        forall|j: int| k < j < 4 ==> a.limbs[j] == b.limbs[j],
    ensures
        a@ < b@,
{
    let w = limb_base() as int;
    let (a0, a1, a2, a3) = (a.limbs[0] as int, a.limbs[1] as int, a.limbs[2] as int, a.limbs[3] as int);
    let (b0, b1, b2, b3) = (b.limbs[0] as int, b.limbs[1] as int, b.limbs[2] as int, b.limbs[3] as int);
    if k == 3 {
        lemma_place_order(w, a2, a3, b2, b3);
    }
    if k >= 2 {
        lemma_place_order(w, a1, a2 + w * a3, b1, b2 + w * b3);
    }
    if k >= 1 {
        lemma_place_order(w, a0, a1 + w * (a2 + w * a3), b0, b1 + w * (b2 + w * b3));
    }
}

/// Distinct limbs give distinct values.
pub proof fn lemma_view_injective(a: U256, b: U256)
    ensures
        a@ == b@ <==> a == b,
{
    if a != b {
        if a.limbs[3] != b.limbs[3] {
            if a.limbs[3] < b.limbs[3] { lemma_limb_order(a, b, 3); } else { lemma_limb_order(b, a, 3); }
        } else if a.limbs[2] != b.limbs[2] {
            if a.limbs[2] < b.limbs[2] { lemma_limb_order(a, b, 2); } else { lemma_limb_order(b, a, 2); }
        } else if a.limbs[1] != b.limbs[1] {
            if a.limbs[1] < b.limbs[1] { lemma_limb_order(a, b, 1); } else { lemma_limb_order(b, a, 1); }
        } else if a.limbs[0] != b.limbs[0] {
            if a.limbs[0] < b.limbs[0] { lemma_limb_order(a, b, 0); } else { lemma_limb_order(b, a, 0); }
        } else {
            assert(a.limbs =~= b.limbs);
        }
    }
}

impl U256 {
    /// Zero.
    pub fn zero() -> (r: U256)
        ensures
            r@ == 0,
    {
        U256 { limbs: [0u64; 4] }
    }

    /// The largest amount, 2^256 - 1. As an allowance it means "unlimited".
    pub fn max_value() -> (r: U256)
        ensures
            r@ == u256_max(),
    {
        let r = U256 { limbs: [u64::MAX; 4] };
        assert(r.limbs[0] == u64::MAX && r.limbs[1] == u64::MAX);
        assert(r.limbs[2] == u64::MAX && r.limbs[3] == u64::MAX);
        r
    }

    /// The amount `v`.
    pub fn from_u64(v: u64) -> (r: U256)
        ensures
            r@ == v,
    {
        U256 { limbs: [v, 0, 0, 0] }
    }

    /// Whether the amount is zero.
    pub fn is_zero(&self) -> (r: bool)
        ensures
            r == (self@ == 0),
    {
        let z = U256::zero();
        proof {
            lemma_view_injective(*self, z);
        }
        self.limbs[0] == 0 && self.limbs[1] == 0 && self.limbs[2] == 0 && self.limbs[3] == 0
    }

    /// Whether the amount is 2^256 - 1.
    pub fn is_max(&self) -> (r: bool)
        ensures
            r == (self@ == u256_max()),
    {
        let m = U256::max_value();
        proof {
            lemma_view_injective(*self, m);
        }
        self.limbs[0] == u64::MAX && self.limbs[1] == u64::MAX && self.limbs[2] == u64::MAX
            && self.limbs[3] == u64::MAX
    }

    /// Whether `self` is smaller than `other`.
    pub fn lt(&self, other: &U256) -> (r: bool)
        ensures
            r == (self@ < other@),
    {
        let (a, b) = (*self, *other);
        if a.limbs[3] != b.limbs[3] {
            proof {
                if a.limbs[3] < b.limbs[3] { lemma_limb_order(a, b, 3); } else { lemma_limb_order(b, a, 3); }
            }
            a.limbs[3] < b.limbs[3]
        } else if a.limbs[2] != b.limbs[2] {
            proof {
                if a.limbs[2] < b.limbs[2] { lemma_limb_order(a, b, 2); } else { lemma_limb_order(b, a, 2); }
            }
            a.limbs[2] < b.limbs[2]
        } else if a.limbs[1] != b.limbs[1] {
            proof {
                if a.limbs[1] < b.limbs[1] { lemma_limb_order(a, b, 1); } else { lemma_limb_order(b, a, 1); }
            }
            a.limbs[1] < b.limbs[1]
        } else if a.limbs[0] != b.limbs[0] {
            proof {
                if a.limbs[0] < b.limbs[0] { lemma_limb_order(a, b, 0); } else { lemma_limb_order(b, a, 0); }
            }
            a.limbs[0] < b.limbs[0]
        } else {
            proof {
                assert(a.limbs =~= b.limbs);
            }
            false
        }
    }
}

impl U256 {
    /// `self + other`, where the sum is known to fit in 256 bits.
    pub fn plus(&self, other: &U256) -> (r: U256)
        requires
            self@ + other@ <= u256_max(),
        ensures
            r@ == self@ + other@,
    {
        match checked_add(*self, *other) {
            Some(s) => s,
            None => unreached(),
        }
    }

    /// `self - other`, where `other` is known not to exceed `self`.
    pub fn minus(&self, other: &U256) -> (r: U256)
        requires
            other@ <= self@,
        ensures
            r@ == self@ - other@,
    {
        match checked_sub(*self, *other) {
            Some(s) => s,
            None => unreached(),
        }
    }
}

/// 2^256, the modulus of wrapping arithmetic.
pub open spec fn u256_modulus() -> int {
    u256_max() as int + 1
}

impl U256 {
    /// `self + other` modulo 2^256.
    pub fn wrapping_add(&self, other: &U256) -> (r: U256)
        ensures
            r@ == (self@ + other@) as int % u256_modulus(),
    {
        proof {
            lemma_u256_range(*self);
            lemma_u256_range(*other);
        }
        match checked_add(*self, *other) {
            Some(s) => {
                assert((self@ + other@) as int % u256_modulus() == self@ + other@) by (nonlinear_arith)
                    requires 0 <= self@ + other@ < u256_modulus();
                s
            },
            None => {
                // the sum passed 2^256 - 1: what is left over is self - (max - other) - 1
                let room = U256::max_value().minus(other);
                let r = self.minus(&room).minus(&U256::from_u64(1));
                assert((self@ + other@) as int % u256_modulus() == self@ + other@ - u256_modulus()) by (nonlinear_arith)
                    requires u256_modulus() <= self@ + other@ < 2 * u256_modulus();
                r
            },
        }
    }

    /// `self - other` modulo 2^256.
    pub fn wrapping_sub(&self, other: &U256) -> (r: U256)
        ensures
            r@ == (self@ - other@) as int % u256_modulus(),
    {
        proof {
            lemma_u256_range(*self);
            lemma_u256_range(*other);
        }
        if self.lt(other) {
            // 2^256 - (other - self), written so that no step leaves the range
            let r = U256::max_value().minus(&other.minus(self)).plus(&U256::from_u64(1));
            assert((self@ - other@) as int % u256_modulus() == self@ - other@ + u256_modulus()) by (nonlinear_arith)
                requires -u256_modulus() < self@ - other@ < 0;
            r
        } else {
            assert((self@ - other@) as int % u256_modulus() == self@ - other@) by (nonlinear_arith)
                requires 0 <= self@ - other@ < u256_modulus();
            self.minus(other)
        }
    }
}

impl PartialEq for U256 {
    fn eq(&self, other: &U256) -> (r: bool) {
        let r = self.limbs[0] == other.limbs[0] && self.limbs[1] == other.limbs[1]
            && self.limbs[2] == other.limbs[2] && self.limbs[3] == other.limbs[3];
        proof {
            if r {
                assert(self.limbs =~= other.limbs);
            }
        }
        r
    }
}

impl vstd::std_specs::cmp::PartialEqSpecImpl for U256 {
    open spec fn obeys_eq_spec() -> bool {
        true
    }

    open spec fn eq_spec(&self, other: &U256) -> bool {
        *self == *other
    }
}

impl Eq for U256 {
}

/// Relies on ruint's `Uint::checked_add` on `Uint<256, 4>` (alloy's `U256`):
/// the sum when it fits in 256 bits, `None` when it would overflow.
#[verifier::external_body]
pub(crate) fn checked_add(a: U256, b: U256) -> (r: Option<U256>)
    ensures
        r is Some <==> a@ + b@ <= u256_max(),
        r matches Some(s) ==> s@ == a@ + b@,
{
    let x = ruint::Uint::<256, 4>::from_limbs(a.limbs);
    let y = ruint::Uint::<256, 4>::from_limbs(b.limbs);
    x.checked_add(y).map(|s| U256 { limbs: s.into_limbs() })
}

/// Relies on ruint's `Uint::checked_sub` on `Uint<256, 4>` (alloy's `U256`):
/// the difference when `b <= a`, `None` when it would underflow.
#[verifier::external_body]
pub(crate) fn checked_sub(a: U256, b: U256) -> (r: Option<U256>)
    ensures
        r is Some <==> b@ <= a@,
        r matches Some(s) ==> s@ == a@ - b@,
{
    let x = ruint::Uint::<256, 4>::from_limbs(a.limbs);
    let y = ruint::Uint::<256, 4>::from_limbs(b.limbs);
    x.checked_sub(y).map(|s| U256 { limbs: s.into_limbs() })
}

} // verus!
