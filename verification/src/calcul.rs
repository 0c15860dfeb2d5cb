//! Integer arithmetic under the geometry: division rounded toward zero,
//! clamping to the coordinate range, and integer square roots.

use vstd::prelude::*;

verus! {

/// The quotient of `a` by a positive `b`, rounded toward zero.
pub open spec fn quotient(a: int, b: int) -> int {
    if a >= 0 {
        a / b
    } else {
        -((-a) / b)
    }
}

/// `v` held to the range of a coordinate.
pub open spec fn borne(v: int) -> int {
    if v < i32::MIN {
        i32::MIN as int
    } else if v > i32::MAX {
        i32::MAX as int
    } else {
        v
    }
}

/// `r` is the integer square root of `n`: the largest `r` with `r * r <= n`.
pub open spec fn est_racine(n: int, r: int) -> bool {
    0 <= r && r * r <= n && n < (r + 1) * (r + 1)
}

/// The integer square root of a non-negative `n`.
pub open spec fn racine(n: int) -> int {
    choose|r: int| est_racine(n, r)
}

/// A number has at most one integer square root.
pub proof fn lemma_racine_unique(n: int, r: int, s: int)
    requires
        est_racine(n, r),
        est_racine(n, s),
    ensures
        r == s,
{
    if r < s {
        assert((r + 1) * (r + 1) <= s * s) by (nonlinear_arith)
            requires
                0 <= r,
                r + 1 <= s,
        ;
    } else if s < r {
        assert((s + 1) * (s + 1) <= r * r) by (nonlinear_arith)
            requires
                0 <= s,
                s + 1 <= r,
        ;
    }
}

/// Whatever passes `est_racine` is the value of `racine`.
pub proof fn lemma_racine(n: int, r: int)
    requires
        est_racine(n, r),
    ensures
        racine(n) == r,
{
    lemma_racine_unique(n, r, racine(n));
}

/// Clamps a wide intermediate result to the range of a coordinate.
pub fn borner(v: i128) -> (r: i32)
    ensures
        r == borne(v as int),
{
    if v < -2147483648 {
        -2147483648
    } else if v > 2147483647 {
        2147483647
    } else {
        v as i32
    }
}

/// Divides by a positive number, rounding toward zero.
pub fn diviser(a: i128, b: i128) -> (q: i128)
    requires
        b > 0,
    ensures
        q == quotient(a as int, b as int),
{
    a / b
}

/// Integer square root by bisection.
pub fn racine_entiere(n: u128) -> (r: u64)
    ensures
        est_racine(n as int, r as int),
        r == racine(n as int),
{
    let mut bas: u128 = 0;
    let mut haut: u128 = 0x1_0000_0000_0000_0000;
    proof {
        assert(0x1_0000_0000_0000_0000int * 0x1_0000_0000_0000_0000int
            == 0x1_0000_0000_0000_0000_0000_0000_0000_0000int) by (nonlinear_arith);
    }
    while haut - bas > 1
        invariant
            bas < haut <= 0x1_0000_0000_0000_0000,
            bas * bas <= n,
            n < haut * haut,
        decreases haut - bas,
    {
        let milieu: u128 = bas + (haut - bas) / 2;
        assert(milieu * milieu <= 0xFFFF_FFFF_FFFF_FFFF * 0xFFFF_FFFF_FFFF_FFFF) by (nonlinear_arith)
            requires
                0 <= milieu <= 0xFFFF_FFFF_FFFF_FFFF,
        ;
        assert(0xFFFF_FFFF_FFFF_FFFFint * 0xFFFF_FFFF_FFFF_FFFFint < 0x1_0000_0000_0000_0000_0000_0000_0000_0000int)
            by (nonlinear_arith);
        if milieu * milieu <= n {
            bas = milieu;
        } else {
            haut = milieu;
        }
    }
    proof {
        lemma_racine(n as int, bas as int);
    }
    bas as u64
}

} // verus!
