//! How long the vectors are that the geometry hands out.

use crate::calcul::{est_racine, quotient, racine};
use crate::cap::{Cap, CAP_ECHELLE, PAS_COS, PAS_SIN};
use crate::vecteur::{Vecteur, AFFINAGE};
use vstd::arithmetic::div_mod::{lemma_div_pos_is_pos, lemma_fundamental_div_mod, lemma_mod_bound};
use vstd::math::abs;
use vstd::prelude::*;

verus! {

/// Every non-negative number has an integer square root.
pub proof fn lemma_racine_existe(n: int)
    requires
        n >= 0,
    ensures
        est_racine(n, racine(n)),
    decreases n,
{
    if n == 0 {
        assert(est_racine(0, 0));
    } else {
        lemma_racine_existe(n - 1);
        let r = racine(n - 1);
        if n < (r + 1) * (r + 1) {
            assert(est_racine(n, r));
        } else {
            assert((r + 1) * (r + 1) < (r + 2) * (r + 2)) by (nonlinear_arith)
                requires
                    r >= 0,
            ;
            assert(est_racine(n, r + 1));
        }
    }
}

/// The quotient of a non-negative number by a positive one, rounded down.
proof fn lemma_division(p: int, d: int)
    requires
        0 <= p,
        0 < d,
    ensures
        0 <= p / d,
        (p / d) * d <= p < (p / d) * d + d,
{
    lemma_fundamental_div_mod(p, d);
    lemma_mod_bound(p, d);
    lemma_div_pos_is_pos(p, d);
    assert(d * (p / d) == (p / d) * d) by (nonlinear_arith);
}

proof fn lemma_carres_ordonnes(x: int, y: int)
    by (nonlinear_arith)
    requires
        0 <= x <= y,
    ensures
        x * x <= y * y,
{
}

proof fn lemma_carres_stricts(x: int, y: int)
    by (nonlinear_arith)
    requires
        0 <= x < y,
    ensures
        x * x < y * y,
{
}

/// One coordinate of a vector that was given the length `l`: `x` is the
/// size of the coordinate it comes from, `m` the square of the length of
/// the vector it comes from, measured at the scale `a`.
proof fn lemma_coordonnee(x: int, l: int, a: int, m: int, r: int)
    requires
        0 <= x,
        0 < l,
        0 < a,
        (x * a) * (x * a) <= m,
        est_racine(m, r),
        r > 0,
    ensures
        0 <= (x * l * a) / r <= l,
        x == 0 ==> (x * l * a) / r == 0,
        ((x * l * a) / r) * r <= x * l * a < ((x * l * a) / r) * r + r,
        (((x * l * a) / r) * r) * (((x * l * a) / r) * r) <= (x * l * a) * (x * l * a),
        (x * l * a) * (x * l * a) < ((((x * l * a) / r) + 1) * r) * ((((x * l * a) / r) + 1) * r),
{
    let p = x * l * a;
    assert(p >= 0) by (nonlinear_arith)
        requires
            p == x * l * a,
            0 <= x,
            0 < l,
            0 < a,
    ;
    lemma_division(p, r);
    let c = p / r;
    if x == 0 {
        assert(p == 0) by (nonlinear_arith)
            requires
                p == x * l * a,
                x == 0,
        ;
        assert(c == 0) by (nonlinear_arith)
            requires
                c >= 0,
                c * r <= 0,
                r > 0,
        ;
    }
    // r is at least x * a, for the square of x * a does not pass m.
    if r < x * a {
        lemma_carres_ordonnes(r + 1, x * a);
    }
    assert(p <= l * r) by (nonlinear_arith)
        requires
            p == x * l * a,
            x * a <= r,
            0 < l,
    ;
    if c > l {
        assert(c * r >= (l + 1) * r) by (nonlinear_arith)
            requires
                c >= l + 1,
                r > 0,
        ;
        assert((l + 1) * r > l * r) by (nonlinear_arith)
            requires
                r > 0,
        ;
    }
    assert(c * r >= 0) by (nonlinear_arith)
        requires
            c >= 0,
            r > 0,
    ;
    lemma_carres_ordonnes(c * r, p);
    assert((c + 1) * r == c * r + r) by (nonlinear_arith);
    lemma_carres_stricts(p, (c + 1) * r);
}

/// A vector that was given the length `l` is shorter than `l + 1` and
/// longer than `l - 3`, each of its coordinates has the sign of the
/// coordinate it comes from, and it points the way the vector it comes
/// from does, to the rounding of a coordinate. This holds of a length
/// that is no more than `AFFINAGE`, or no more than the vector it is given
/// to is long at that scale.
pub proof fn lemma_vers_longueur(v: Vecteur, l: int)
    requires
        !v.est_nul(),
        6 <= l <= 0x4000_0000,
        l <= AFFINAGE || l <= v.longueur_affinee(),
    ensures
        v.spec_vers_longueur(l).spec_long_de(l),
        v.x >= 0 ==> v.spec_vers_longueur(l).x >= 0,
        v.x <= 0 ==> v.spec_vers_longueur(l).x <= 0,
        v.y >= 0 ==> v.spec_vers_longueur(l).y >= 0,
        v.y <= 0 ==> v.spec_vers_longueur(l).y <= 0,
        -(abs(v.x as int) + abs(v.y as int)) <= v.spec_vers_longueur(l).x * v.y
            - v.spec_vers_longueur(l).y * v.x <= abs(v.x as int) + abs(v.y as int),
{
    let a = AFFINAGE as int;
    let x: int = if v.x >= 0 {
        v.x as int
    } else {
        -v.x
    };
    let y: int = if v.y >= 0 {
        v.y as int
    } else {
        -v.y
    };
    let n = v.spec_norme_carree();
    assert(n == x * x + y * y) by (nonlinear_arith)
        requires
            n == v.x * v.x + v.y * v.y,
            x == v.x || x == -v.x,
            y == v.y || y == -v.y,
    ;
    assert(x * x >= 0 && y * y >= 0) by (nonlinear_arith);
    assert(n >= 1) by (nonlinear_arith)
        requires
            n == x * x + y * y,
            x >= 0,
            y >= 0,
            x > 0 || y > 0,
    ;
    let m = n * (a * a);
    assert(m >= a * a && a * a > 0) by (nonlinear_arith)
        requires
            m == n * (a * a),
            n >= 1,
            a > 0,
    ;
    lemma_racine_existe(m);
    let r = racine(m);
    assert(r == v.longueur_affinee());
    if r < a {
        lemma_carres_ordonnes(r + 1, a);
    }
    assert(r >= l);
    assert((x * a) * (x * a) <= m && (y * a) * (y * a) <= m) by (nonlinear_arith)
        requires
            m == (x * x + y * y) * (a * a),
            a > 0,
    ;
    lemma_coordonnee(x, l, a, m, r);
    lemma_coordonnee(y, l, a, m, r);
    let p = x * l * a;
    let q = y * l * a;
    let cx = p / r;
    let cy = q / r;
    // The coordinates of the result are cx and cy, up to their signs.
    let res = v.spec_vers_longueur(l);
    assert(v.x * l * a == (if v.x >= 0 {
        p
    } else {
        -p
    })) by (nonlinear_arith)
        requires
            p == x * l * a,
            x == (if v.x >= 0 {
                v.x as int
            } else {
                -v.x
            }),
    ;
    assert(v.y * l * a == (if v.y >= 0 {
        q
    } else {
        -q
    })) by (nonlinear_arith)
        requires
            q == y * l * a,
            y == (if v.y >= 0 {
                v.y as int
            } else {
                -v.y
            }),
    ;
    assert(p >= 0 && q >= 0) by (nonlinear_arith)
        requires
            p == x * l * a,
            q == y * l * a,
            x >= 0,
            y >= 0,
            l > 0,
            a > 0,
    ;
    assert(res.x == (if v.x >= 0 {
        cx
    } else {
        -cx
    }));
    assert(res.y == (if v.y >= 0 {
        cy
    } else {
        -cy
    }));
    let s = res.spec_norme_carree();
    assert(s == cx * cx + cy * cy) by (nonlinear_arith)
        requires
            s == res.x * res.x + res.y * res.y,
            res.x == cx || res.x == -cx,
            res.y == cy || res.y == -cy,
    ;
    // Above: (cx r)^2 + (cy r)^2 <= p^2 + q^2 = m l^2 < ((r + 1) l)^2.
    let u = l * a;
    assert(p == x * u && q == y * u) by (nonlinear_arith)
        requires
            p == x * l * a,
            q == y * l * a,
            u == l * a,
    ;
    assert(u * u == (l * l) * (a * a)) by (nonlinear_arith)
        requires
            u == l * a,
    ;
    assert(p * p == (x * x) * (u * u)) by (nonlinear_arith)
        requires
            p == x * u,
    ;
    assert(q * q == (y * y) * (u * u)) by (nonlinear_arith)
        requires
            q == y * u,
    ;
    assert(p * p + q * q == m * (l * l)) by (nonlinear_arith)
        requires
            p * p == (x * x) * (u * u),
            q * q == (y * y) * (u * u),
            u * u == (l * l) * (a * a),
            m == (x * x + y * y) * (a * a),
    ;
    assert(s * (r * r) == (cx * r) * (cx * r) + (cy * r) * (cy * r)) by (nonlinear_arith)
        requires
            s == cx * cx + cy * cy,
    ;
    assert(m * (l * l) < ((r + 1) * (r + 1)) * (l * l)) by (nonlinear_arith)
        requires
            m < (r + 1) * (r + 1),
            l > 0,
    ;
    if s >= (l + 1) * (l + 1) {
        assert(s * (r * r) >= ((l + 1) * (l + 1)) * (r * r)) by (nonlinear_arith)
            requires
                s >= (l + 1) * (l + 1),
                r > 0,
        ;
        assert(((l + 1) * r) * ((l + 1) * r) == ((l + 1) * (l + 1)) * (r * r))
            by (nonlinear_arith);
        assert(((r + 1) * l) * ((r + 1) * l) == ((r + 1) * (r + 1)) * (l * l))
            by (nonlinear_arith);
        assert((l + 1) * r >= (r + 1) * l) by (nonlinear_arith)
            requires
                r >= l,
        ;
        assert((r + 1) * l >= 0) by (nonlinear_arith)
            requires
                r >= 0,
                l >= 0,
        ;
        lemma_carres_ordonnes((r + 1) * l, (l + 1) * r);
    }
    // Below: (r l)^2 <= m l^2 = p^2 + q^2 < ((cx + 1) r)^2 + ((cy + 1) r)^2.
    let t = (cx + 1) * (cx + 1) + (cy + 1) * (cy + 1);
    assert(t * (r * r) == ((cx + 1) * r) * ((cx + 1) * r) + ((cy + 1) * r) * ((cy + 1) * r))
        by (nonlinear_arith)
        requires
            t == (cx + 1) * (cx + 1) + (cy + 1) * (cy + 1),
    ;
    assert((r * r) * (l * l) <= m * (l * l)) by (nonlinear_arith)
        requires
            r * r <= m,
            l > 0,
    ;
    if t <= l * l {
        assert(t * (r * r) <= (l * l) * (r * r)) by (nonlinear_arith)
            requires
                t <= l * l,
                r > 0,
        ;
        assert((l * l) * (r * r) == (r * r) * (l * l)) by (nonlinear_arith);
    }
    assert(t == s + 2 * cx + 2 * cy + 2) by (nonlinear_arith)
        requires
            t == (cx + 1) * (cx + 1) + (cy + 1) * (cy + 1),
            s == cx * cx + cy * cy,
    ;
    assert((l - 3) * (l - 3) == l * l - 6 * l + 9) by (nonlinear_arith);
    // Direction: r (cx y - cy x) lies between -r y and r x.
    let d = cx * y - cy * x;
    assert(d <= x) by (nonlinear_arith)
        requires
            d == cx * y - cy * x,
            cx * r <= p,
            q < cy * r + r,
            p == x * u,
            q == y * u,
            x >= 0,
            y >= 0,
            r > 0,
            x == 0 ==> cx == 0,
    ;
    assert(-y <= d) by (nonlinear_arith)
        requires
            d == cx * y - cy * x,
            cy * r <= q,
            p < cx * r + r,
            p == x * u,
            q == y * u,
            x >= 0,
            y >= 0,
            r > 0,
            y == 0 ==> cy == 0,
    ;
    let croix = res.x * v.y - res.y * v.x;
    assert(croix == d || croix == -d) by (nonlinear_arith)
        requires
            croix == res.x * v.y - res.y * v.x,
            d == cx * y - cy * x,
            res.x == (if v.x >= 0 {
                cx
            } else {
                -cx
            }),
            res.y == (if v.y >= 0 {
                cy
            } else {
                -cy
            }),
            x == (if v.x >= 0 {
                v.x as int
            } else {
                -v.x
            }),
            y == (if v.y >= 0 {
                v.y as int
            } else {
                -v.y
            }),
    ;
}

/// A rotation keeps the length: the identity behind it.
proof fn lemma_rotation(x: int, y: int, c: int, s: int)
    ensures
        (x * c - y * s) * (x * c - y * s) + (x * s + y * c) * (x * s + y * c) == (x * x + y * y) * (c
            * c + s * s),
{
    let a = x * c;
    let b = y * s;
    let d = x * s;
    let f = y * c;
    assert((a - b) * (a - b) + (d + f) * (d + f) == a * a + b * b + d * d + f * f - 2 * (a * b) + 2
        * (d * f)) by (nonlinear_arith);
    assert(a * b == d * f) by (nonlinear_arith)
        requires
            a == x * c,
            b == y * s,
            d == x * s,
            f == y * c,
    ;
    assert(a * a == (x * x) * (c * c)) by (nonlinear_arith)
        requires
            a == x * c,
    ;
    assert(b * b == (y * y) * (s * s)) by (nonlinear_arith)
        requires
            b == y * s,
    ;
    assert(d * d == (x * x) * (s * s)) by (nonlinear_arith)
        requires
            d == x * s,
    ;
    assert(f * f == (y * y) * (c * c)) by (nonlinear_arith)
        requires
            f == y * c,
    ;
    let xx = x * x;
    let yy = y * y;
    let cc = c * c;
    let ss = s * s;
    assert((xx + yy) * (cc + ss) == xx * cc + yy * ss + xx * ss + yy * cc) by (nonlinear_arith);
}

/// No coordinate of a vector is longer than the vector.
pub proof fn lemma_coordonnees_bornees(x: int, y: int, b: int)
    requires
        b >= 0,
        x * x + y * y < (b + 1) * (b + 1),
    ensures
        -b <= x <= b,
        -b <= y <= b,
{
    assert(x * x >= 0 && y * y >= 0) by (nonlinear_arith);
    if x > b || x < -b {
        assert(x * x >= (b + 1) * (b + 1)) by (nonlinear_arith)
            requires
                x > b || x < -b,
                b >= 0,
        ;
    }
    if y > b || y < -b {
        assert(y * y >= (b + 1) * (b + 1)) by (nonlinear_arith)
            requires
                y > b || y < -b,
                b >= 0,
        ;
    }
}

/// The square of a coordinate that is `p / e` rounded toward zero, where
/// `p` is at least `2^58` in size and `e` is `2^30`.
proof fn lemma_grande_coordonnee(p: int, w: int)
    requires
        p >= 0x400_0000_0000_0000 || p <= -0x400_0000_0000_0000,
        w == quotient(p, 0x4000_0000),
    ensures
        w * w >= 0x100_0000_0000_0000,
{
    assert(w >= 0x1000_0000 || w <= -0x1000_0000);
    assert(w * w >= 0x100_0000_0000_0000) by (nonlinear_arith)
        requires
            w >= 0x1000_0000 || w <= -0x1000_0000,
    ;
}

/// A heading of full length that is turned one step has full length.
pub proof fn lemma_tourne(c: Cap, sens: int)
    requires
        c.unitaire(),
        sens == 1 || sens == -1,
    ensures
        c.spec_tourne(sens).unitaire(),
{
    let e: int = 0x4000_0000;
    let cs: int = 1072399926;
    let sn: int = sens * 53664724;
    assert(CAP_ECHELLE == e && PAS_COS == cs && sens * PAS_SIN == sn);
    let x = c.v.x as int;
    let y = c.v.y as int;
    let n = x * x + y * y;
    assert((e - 3) * (e - 3) == 1152921498164396041 && (e + 1) * (e + 1) == 1152921506754330625)
        by (nonlinear_arith)
        requires
            e == 0x4000_0000,
    ;
    assert(1152921498164396041 < n < 1152921506754330625);
    lemma_coordonnees_bornees(x, y, e);
    let p = x * cs - y * sn;
    let q = x * sn + y * cs;
    assert(c.v.x * PAS_COS - sens * (c.v.y * PAS_SIN) == p) by (nonlinear_arith)
        requires
            p == x * cs - y * sn,
            x == c.v.x,
            y == c.v.y,
            PAS_COS == cs,
            sens * PAS_SIN == sn,
    ;
    assert(sens * (c.v.x * PAS_SIN) + c.v.y * PAS_COS == q) by (nonlinear_arith)
        requires
            q == x * sn + y * cs,
            x == c.v.x,
            y == c.v.y,
            PAS_COS == cs,
            sens * PAS_SIN == sn,
    ;
    lemma_rotation(x, y, cs, sn);
    assert(cs * cs + sn * sn == 1152921503886801652) by (nonlinear_arith)
        requires
            cs == 1072399926,
            sn == 53664724 || sn == -53664724,
    ;
    assert(p * p + q * q >= 0x4000_0000_0000_0000_0000_0000_0000_00) by (nonlinear_arith)
        requires
            p * p + q * q == n * (cs * cs + sn * sn),
            cs * cs + sn * sn == 1152921503886801652,
            n >= 0x800_0000_0000_0000,
    ;
    assert(-1209102711232921600 <= p <= 1209102711232921600 && -1209102711232921600 <= q
        <= 1209102711232921600) by (nonlinear_arith)
        requires
            p == x * cs - y * sn,
            q == x * sn + y * cs,
            -0x4000_0000 <= x <= 0x4000_0000,
            -0x4000_0000 <= y <= 0x4000_0000,
            cs == 1072399926,
            sn == 53664724 || sn == -53664724,
    ;
    let wx = quotient(p, e);
    let wy = quotient(q, e);
    assert(-0x7FFF_FFFF <= wx <= 0x7FFF_FFFF && -0x7FFF_FFFF <= wy <= 0x7FFF_FFFF);
    let w = Vecteur { x: wx as i32, y: wy as i32 };
    assert(c.spec_tourne(sens).v == w.spec_vers_longueur(e));
    let petit: int = 0x400_0000_0000_0000;
    if -petit < p < petit && -petit < q < petit {
        assert(p * p + q * q < 0x2000_0000_0000_0000_0000_0000_0000_00) by (nonlinear_arith)
            requires
                -petit < p < petit,
                -petit < q < petit,
                petit == 0x400_0000_0000_0000,
        ;
    }
    assert(wx * wx >= 0 && wy * wy >= 0) by (nonlinear_arith);
    if p >= petit || p <= -petit {
        lemma_grande_coordonnee(p, wx);
    } else {
        lemma_grande_coordonnee(q, wy);
    }
    let nw = w.spec_norme_carree();
    assert(nw >= 0x100_0000_0000_0000);
    let a = AFFINAGE as int;
    let m = nw * (a * a);
    assert(m >= e * e) by (nonlinear_arith)
        requires
            m == nw * (a * a),
            nw >= 0x100_0000_0000_0000,
            a == 0x10_0000,
            e == 0x4000_0000,
    ;
    lemma_racine_existe(m);
    let r = racine(m);
    if r < e {
        lemma_carres_ordonnes(r + 1, e);
    }
    assert(w.longueur_affinee() >= e);
    lemma_vers_longueur(w, e);
}

/// Every heading that is counted in steps from angle 0 has full length.
pub proof fn lemma_depuis_pas(n: nat)
    ensures
        Cap::spec_depuis_pas(n).unitaire(),
    decreases n,
{
    if n == 0 {
        let e: int = CAP_ECHELLE as int;
        assert((e - 3) * (e - 3) < e * e + 0 * 0 < (e + 1) * (e + 1)) by (nonlinear_arith)
            requires
                e == 0x4000_0000,
        ;
    } else {
        lemma_depuis_pas((n - 1) as nat);
        lemma_tourne(Cap::spec_depuis_pas((n - 1) as nat), 1);
    }
}

/// The vector of length `l` along a heading of full length is shorter
/// than `l + 1` and longer than `l - 3`.
pub proof fn lemma_cap_vecteur(c: Cap, l: int)
    requires
        c.unitaire(),
        6 <= l <= 0x10_0000,
    ensures
        c.spec_vecteur(l).spec_long_de(l),
{
    let e: int = 0x4000_0000;
    assert(CAP_ECHELLE == e);
    let ee: int = 0x1000_0000_0000_0000;
    assert(e * e == ee) by (nonlinear_arith)
        requires
            e == 0x4000_0000,
            ee == 0x1000_0000_0000_0000,
    ;
    assert((e - 3) * (e - 3) == 1152921498164396041 && (e + 1) * (e + 1) == 1152921506754330625)
        by (nonlinear_arith)
        requires
            e == 0x4000_0000,
    ;
    let n = c.v.spec_norme_carree();
    lemma_coordonnees_bornees(c.v.x as int, c.v.y as int, e);
    let x: int = if c.v.x >= 0 {
        c.v.x as int
    } else {
        -c.v.x
    };
    let y: int = if c.v.y >= 0 {
        c.v.y as int
    } else {
        -c.v.y
    };
    assert(n == x * x + y * y) by (nonlinear_arith)
        requires
            n == c.v.x * c.v.x + c.v.y * c.v.y,
            x == c.v.x || x == -c.v.x,
            y == c.v.y || y == -c.v.y,
    ;
    let ll = l * l;
    assert(0 < ll <= 0x10_0000 * l) by (nonlinear_arith)
        requires
            ll == l * l,
            6 <= l <= 0x10_0000,
    ;
    let px = x * l;
    let py = y * l;
    assert(0 <= px <= e * l && 0 <= py <= e * l) by (nonlinear_arith)
        requires
            px == x * l,
            py == y * l,
            0 <= x <= e,
            0 <= y <= e,
            l > 0,
    ;
    lemma_division(px, e);
    lemma_division(py, e);
    let cx = px / e;
    let cy = py / e;
    assert(cx <= l && cy <= l) by (nonlinear_arith)
        requires
            cx * e <= px,
            cy * e <= py,
            px <= e * l,
            py <= e * l,
            e > 0,
    ;
    let res = c.spec_vecteur(l);
    assert(c.v.x * l == (if c.v.x >= 0 {
        px
    } else {
        -px
    })) by (nonlinear_arith)
        requires
            px == x * l,
            x == (if c.v.x >= 0 {
                c.v.x as int
            } else {
                -c.v.x
            }),
    ;
    assert(c.v.y * l == (if c.v.y >= 0 {
        py
    } else {
        -py
    })) by (nonlinear_arith)
        requires
            py == y * l,
            y == (if c.v.y >= 0 {
                c.v.y as int
            } else {
                -c.v.y
            }),
    ;
    assert(res.x == cx || res.x == -cx);
    assert(res.y == cy || res.y == -cy);
    let s = res.spec_norme_carree();
    assert(s == cx * cx + cy * cy) by (nonlinear_arith)
        requires
            s == res.x * res.x + res.y * res.y,
            res.x == cx || res.x == -cx,
            res.y == cy || res.y == -cy,
    ;
    assert(px * px + py * py == n * ll) by (nonlinear_arith)
        requires
            px == x * l,
            py == y * l,
            n == x * x + y * y,
            ll == l * l,
    ;
    // Above: s e^2 <= n l^2 < ((e + 1) l)^2.
    assert(cx * e >= 0 && cy * e >= 0) by (nonlinear_arith)
        requires
            cx >= 0,
            cy >= 0,
            e > 0,
    ;
    lemma_carres_ordonnes(cx * e, px);
    lemma_carres_ordonnes(cy * e, py);
    assert(s * ee == (cx * e) * (cx * e) + (cy * e) * (cy * e)) by (nonlinear_arith)
        requires
            s == cx * cx + cy * cy,
            ee == e * e,
    ;
    assert(n * ll < ((e + 1) * (e + 1)) * ll) by (nonlinear_arith)
        requires
            n < (e + 1) * (e + 1),
            ll > 0,
    ;
    if s >= (l + 1) * (l + 1) {
        assert(s * ee >= ((l + 1) * (l + 1)) * ee) by (nonlinear_arith)
            requires
                s >= (l + 1) * (l + 1),
                ee > 0,
        ;
        assert(((l + 1) * e) * ((l + 1) * e) == ((l + 1) * (l + 1)) * ee) by (nonlinear_arith)
            requires
                ee == e * e,
        ;
        assert(((e + 1) * l) * ((e + 1) * l) == ((e + 1) * (e + 1)) * ll) by (nonlinear_arith)
            requires
                ll == l * l,
        ;
        assert((l + 1) * e >= (e + 1) * l && (e + 1) * l >= 0) by (nonlinear_arith)
            requires
                e >= l,
                l >= 0,
        ;
        lemma_carres_ordonnes((e + 1) * l, (l + 1) * e);
    }
    // Below: (e - 3)^2 l^2 < n l^2 < t e^2, where t passes s by no more
    // than 4 l + 2.
    assert((cx + 1) * e == cx * e + e && (cy + 1) * e == cy * e + e) by (nonlinear_arith);
    lemma_carres_stricts(px, (cx + 1) * e);
    lemma_carres_stricts(py, (cy + 1) * e);
    let t = (cx + 1) * (cx + 1) + (cy + 1) * (cy + 1);
    assert(t * ee == ((cx + 1) * e) * ((cx + 1) * e) + ((cy + 1) * e) * ((cy + 1) * e))
        by (nonlinear_arith)
        requires
            t == (cx + 1) * (cx + 1) + (cy + 1) * (cy + 1),
            ee == e * e,
    ;
    assert(t == s + 2 * cx + 2 * cy + 2) by (nonlinear_arith)
        requires
            t == (cx + 1) * (cx + 1) + (cy + 1) * (cy + 1),
            s == cx * cx + cy * cy,
    ;
    assert(1152921498164396042 * ll <= n * ll) by (nonlinear_arith)
        requires
            n >= 1152921498164396042,
            ll > 0,
    ;
    assert((l - 3) * (l - 3) == ll - 6 * l + 9) by (nonlinear_arith)
        requires
            ll == l * l,
    ;
    if s <= (l - 3) * (l - 3) {
        assert(t * ee <= (ll - 2 * l + 11) * ee) by (nonlinear_arith)
            requires
                t <= ll - 2 * l + 11,
                ee > 0,
        ;
        assert(false) by (nonlinear_arith)
            requires
                1152921498164396042 * ll < (ll - 2 * l + 11) * ee,
                ee == 0x1000_0000_0000_0000,
                0 < ll <= 0x10_0000 * l,
                6 <= l,
        ;
    }
}

/// A point `s` that lies nearer than `portee` to a point `a`, and is
/// pushed straight away from it by what it lacks, then lies `portee` from
/// it: no more than four steps of a coordinate nearer, and less than two
/// further. This holds where the point lacks at least six steps, does not
/// lie on `a` itself, and no coordinate is held at the end of its range.
pub proof fn lemma_repousse(s: Vecteur, a: Vecteur, portee: int)
    requires
        s != a,
        i32::MIN <= a.x - s.x <= i32::MAX,
        i32::MIN <= a.y - s.y <= i32::MAX,
        6 <= portee - s.spec_distance(a),
        portee <= AFFINAGE,
        ({
            let c = a.spec_moins(s).spec_vers_longueur(portee - s.spec_distance(a));
            i32::MIN <= s.x - c.x <= i32::MAX && i32::MIN <= s.y - c.y <= i32::MAX
        }),
    ensures
        ({
            let c = a.spec_moins(s).spec_vers_longueur(portee - s.spec_distance(a));
            (portee - 4) * (portee - 4) <= s.spec_moins(c).spec_distance_carree(a) < (portee + 2) * (
            portee + 2)
        }),
{
    let d = a.spec_moins(s);
    let dx = d.x as int;
    let dy = d.y as int;
    assert(dx == a.x - s.x && dy == a.y - s.y);
    let dd = s.spec_distance_carree(a);
    assert(dd == dx * dx + dy * dy) by (nonlinear_arith)
        requires
            dd == (s.x - a.x) * (s.x - a.x) + (s.y - a.y) * (s.y - a.y),
            dx == a.x - s.x,
            dy == a.y - s.y,
    ;
    assert(dx * dx >= 0 && dy * dy >= 0) by (nonlinear_arith);
    lemma_racine_existe(dd);
    let f = racine(dd);
    let l = portee - f;
    let c = d.spec_vers_longueur(l);
    lemma_vers_longueur(d, l);
    let cx = c.x as int;
    let cy = c.y as int;
    let cc = cx * cx + cy * cy;
    let dc = dx * cx + dy * cy;
    let croix = cx * dy - cy * dx;
    // The square of the scalar product and that of the cross product make
    // up the product of the two squared lengths.
    lemma_rotation(dx, dy, cx, -cy);
    assert(dc * dc + croix * croix == dd * cc) by (nonlinear_arith)
        requires
            (dx * cx - dy * (-cy)) * (dx * cx - dy * (-cy)) + (dx * (-cy) + dy * cx) * (dx * (-cy)
                + dy * cx) == (dx * dx + dy * dy) * (cx * cx + (-cy) * (-cy)),
            dc == dx * cx + dy * cy,
            croix == cx * dy - cy * dx,
            dd == dx * dx + dy * dy,
            cc == cx * cx + cy * cy,
    ;
    assert(dc >= 0) by (nonlinear_arith)
        requires
            dc == dx * cx + dy * cy,
            dx >= 0 ==> cx >= 0,
            dx <= 0 ==> cx <= 0,
            dy >= 0 ==> cy >= 0,
            dy <= 0 ==> cy <= 0,
    ;
    let ax = abs(dx);
    let ay = abs(dy);
    assert(croix * croix <= 2 * dd) by (nonlinear_arith)
        requires
            -(ax + ay) <= croix <= ax + ay,
            ax == dx || ax == -dx,
            ay == dy || ay == -dy,
            ax >= 0,
            ay >= 0,
            dd == dx * dx + dy * dy,
    ;
    // Above: dc < (f + 1) (l + 1).
    let haut = (f + 1) * (l + 1);
    assert(dd * cc < ((f + 1) * (f + 1)) * ((l + 1) * (l + 1))) by (nonlinear_arith)
        requires
            0 <= dd < (f + 1) * (f + 1),
            0 <= cc < (l + 1) * (l + 1),
    ;
    assert(haut * haut == ((f + 1) * (f + 1)) * ((l + 1) * (l + 1))) by (nonlinear_arith)
        requires
            haut == (f + 1) * (l + 1),
    ;
    assert(croix * croix >= 0) by (nonlinear_arith);
    assert(haut >= 0) by (nonlinear_arith)
        requires
            haut == (f + 1) * (l + 1),
            f >= 0,
            l >= 0,
    ;
    if dc >= haut {
        lemma_carres_ordonnes(haut, dc);
    }
    // Below: dc >= f (l - 4).
    let bas = f * (l - 4);
    assert(cc - 2 >= (l - 4) * (l - 4)) by (nonlinear_arith)
        requires
            cc > (l - 3) * (l - 3),
            l >= 6,
    ;
    assert(dd * (cc - 2) >= (f * f) * ((l - 4) * (l - 4))) by (nonlinear_arith)
        requires
            dd >= f * f,
            f * f >= 0,
            cc - 2 >= (l - 4) * (l - 4),
            (l - 4) * (l - 4) >= 0,
    ;
    assert(dd * (cc - 2) == dd * cc - 2 * dd) by (nonlinear_arith);
    assert(bas * bas == (f * f) * ((l - 4) * (l - 4))) by (nonlinear_arith)
        requires
            bas == f * (l - 4),
    ;
    assert(bas >= 0) by (nonlinear_arith)
        requires
            bas == f * (l - 4),
            f >= 0,
            l >= 6,
    ;
    if dc < bas {
        lemma_carres_stricts(dc, bas);
    }
    // The pushed point lies d + c from `a`.
    let apres = s.spec_moins(c);
    let r = apres.spec_distance_carree(a);
    assert(r == dd + 2 * dc + cc) by (nonlinear_arith)
        requires
            r == (apres.x - a.x) * (apres.x - a.x) + (apres.y - a.y) * (apres.y - a.y),
            apres.x - a.x == -(dx + cx),
            apres.y - a.y == -(dy + cy),
            dd == dx * dx + dy * dy,
            cc == cx * cx + cy * cy,
            dc == dx * cx + dy * cy,
    ;
    assert((portee + 2) * (portee + 2) == (f + 1) * (f + 1) + 2 * haut + (l + 1) * (l + 1))
        by (nonlinear_arith)
        requires
            portee == f + l,
            haut == (f + 1) * (l + 1),
    ;
    assert((portee - 4) * (portee - 4) == f * f + 2 * bas + (l - 4) * (l - 4)) by (nonlinear_arith)
        requires
            portee == f + l,
            bas == f * (l - 4),
    ;
    assert((l - 4) * (l - 4) <= (l - 3) * (l - 3)) by (nonlinear_arith)
        requires
            l >= 6,
    ;
}

} // verus!
