//! Plane vectors on integer coordinates.
//!
//! A coordinate counts thousandths of a unit of length. Every operation is
//! total: a result that leaves the range of a coordinate is held at the
//! nearest end of that range, and a quotient is rounded toward zero.

use crate::calcul::{borne, borner, diviser, quotient, racine, racine_entiere};
use vstd::prelude::*;

verus! {

/// Coordinate steps in one unit of length.
pub const UNITE: i32 = 1000;

/// Scale at which a direction is measured before it is given a length.
pub const AFFINAGE: i64 = 0x10_0000;

/// A position, a displacement or a velocity.
#[derive(Clone, Copy, Debug, PartialEq, Eq, Structural)]
pub struct Vecteur {
    pub x: i32,
    pub y: i32,
}

/// Bounds the product of two bounded numbers.
pub proof fn lemma_borne_produit(a: int, b: int, ma: int, mb: int)
    by (nonlinear_arith)
    requires
        -ma <= a <= ma,
        -mb <= b <= mb,
    ensures
        -(ma * mb) <= a * b <= ma * mb,
{
}

impl Vecteur {
    pub open spec fn spec_unites(x: int, y: int) -> Vecteur {
        Vecteur { x: borne(x * UNITE) as i32, y: borne(y * UNITE) as i32 }
    }

    pub open spec fn spec_plus(self, o: Vecteur) -> Vecteur {
        Vecteur { x: borne(self.x + o.x) as i32, y: borne(self.y + o.y) as i32 }
    }

    pub open spec fn spec_moins(self, o: Vecteur) -> Vecteur {
        Vecteur { x: borne(self.x - o.x) as i32, y: borne(self.y - o.y) as i32 }
    }

    /// The vector times `num / den`, for a positive `den`.
    pub open spec fn spec_fraction(self, num: int, den: int) -> Vecteur {
        Vecteur {
            x: borne(quotient(self.x * num, den)) as i32,
            y: borne(quotient(self.y * num, den)) as i32,
        }
    }

    /// The vector turned by a quarter turn: `(x, y)` becomes `(-y, x)`.
    pub open spec fn spec_perpendiculaire(self) -> Vecteur {
        Vecteur { x: borne(-self.y) as i32, y: self.x }
    }

    pub open spec fn spec_scalaire(self, o: Vecteur) -> int {
        self.x * o.x + self.y * o.y
    }

    pub open spec fn spec_norme_carree(self) -> int {
        self.x * self.x + self.y * self.y
    }

    /// The length, rounded down.
    pub open spec fn spec_longueur(self) -> int {
        racine(self.spec_norme_carree())
    }

    /// The vector is `l` long, to within three steps of a coordinate
    /// below `l` and one above.
    pub open spec fn spec_long_de(self, l: int) -> bool {
        (l - 3) * (l - 3) < self.spec_norme_carree() < (l + 1) * (l + 1)
    }

    pub open spec fn est_nul(self) -> bool {
        self.x == 0 && self.y == 0
    }

    /// The length of the vector measured at the scale `AFFINAGE`, rounded down.
    pub open spec fn longueur_affinee(self) -> int {
        racine(self.spec_norme_carree() * (AFFINAGE * AFFINAGE))
    }

    /// The vector of length `l` that points the way `self` does; the zero
    /// vector where `self` has no direction.
    pub open spec fn spec_vers_longueur(self, l: int) -> Vecteur {
        if self.est_nul() {
            Vecteur { x: 0, y: 0 }
        } else {
            Vecteur {
                x: borne(quotient(self.x * l * AFFINAGE, self.longueur_affinee())) as i32,
                y: borne(quotient(self.y * l * AFFINAGE, self.longueur_affinee())) as i32,
            }
        }
    }

    /// The mirror image of `self` in the line across the direction `d`:
    /// `v - 2 (v.d) d / (d.d)`, and `v` itself where `d` has no direction.
    pub open spec fn spec_reflechi(self, d: Vecteur) -> Vecteur {
        if d.est_nul() {
            self
        } else {
            Vecteur {
                x: borne(
                    self.x - quotient(2 * self.spec_scalaire(d) * d.x, d.spec_norme_carree()),
                ) as i32,
                y: borne(
                    self.y - quotient(2 * self.spec_scalaire(d) * d.y, d.spec_norme_carree()),
                ) as i32,
            }
        }
    }

    pub open spec fn spec_distance_carree(self, o: Vecteur) -> int {
        (self.x - o.x) * (self.x - o.x) + (self.y - o.y) * (self.y - o.y)
    }

    /// The distance between two points, rounded down.
    pub open spec fn spec_distance(self, o: Vecteur) -> int {
        racine(self.spec_distance_carree(o))
    }

    /// The two points lie strictly closer than `portee` to each other.
    pub open spec fn spec_a_portee(self, o: Vecteur, portee: int) -> bool {
        portee > 0 && self.spec_distance_carree(o) < portee * portee
    }

    pub fn new(x: i32, y: i32) -> (v: Vecteur)
        ensures
            v.x == x,
            v.y == y,
    {
        Vecteur { x, y }
    }

    /// The vector of `x` and `y` whole units.
    pub fn unites(x: i32, y: i32) -> (v: Vecteur)
        ensures
            v == Self::spec_unites(x as int, y as int),
    {
        Vecteur { x: borner(x as i128 * 1000), y: borner(y as i128 * 1000) }
    }

    pub fn plus(self, o: Vecteur) -> (v: Vecteur)
        ensures
            v == self.spec_plus(o),
    {
        Vecteur {
            x: borner(self.x as i128 + o.x as i128),
            y: borner(self.y as i128 + o.y as i128),
        }
    }

    pub fn moins(self, o: Vecteur) -> (v: Vecteur)
        ensures
            v == self.spec_moins(o),
    {
        Vecteur {
            x: borner(self.x as i128 - o.x as i128),
            y: borner(self.y as i128 - o.y as i128),
        }
    }

    pub fn fraction(self, num: i32, den: i32) -> (v: Vecteur)
        requires
            den > 0,
        ensures
            v == self.spec_fraction(num as int, den as int),
    {
        proof {
            lemma_borne_produit(self.x as int, num as int, 0x8000_0000, 0x8000_0000);
            lemma_borne_produit(self.y as int, num as int, 0x8000_0000, 0x8000_0000);
        }
        Vecteur {
            x: borner(diviser(self.x as i128 * num as i128, den as i128)),
            y: borner(diviser(self.y as i128 * num as i128, den as i128)),
        }
    }

    pub fn perpendiculaire(self) -> (v: Vecteur)
        ensures
            v == self.spec_perpendiculaire(),
    {
        Vecteur { x: borner(-(self.y as i128)), y: self.x }
    }

    pub fn scalaire(self, o: Vecteur) -> (s: i128)
        ensures
            s == self.spec_scalaire(o),
            -0x8000_0000_0000_0000 <= s <= 0x8000_0000_0000_0000,
    {
        proof {
            lemma_borne_produit(self.x as int, o.x as int, 0x8000_0000, 0x8000_0000);
            lemma_borne_produit(self.y as int, o.y as int, 0x8000_0000, 0x8000_0000);
        }
        self.x as i128 * o.x as i128 + self.y as i128 * o.y as i128
    }

    pub fn norme_carree(self) -> (n: u64)
        ensures
            n == self.spec_norme_carree(),
            n == 0 <==> self.est_nul(),
            n <= 0x8000_0000_0000_0000,
    {
        proof {
            lemma_borne_produit(self.x as int, self.x as int, 0x8000_0000, 0x8000_0000);
            lemma_borne_produit(self.y as int, self.y as int, 0x8000_0000, 0x8000_0000);
            assert(self.x * self.x >= 0) by (nonlinear_arith);
            assert(self.y * self.y >= 0) by (nonlinear_arith);
            assert(self.x != 0 ==> self.x * self.x > 0) by (nonlinear_arith);
            assert(self.y != 0 ==> self.y * self.y > 0) by (nonlinear_arith);
        }
        let n: i128 = self.x as i128 * self.x as i128 + self.y as i128 * self.y as i128;
        n as u64
    }

    pub fn longueur(self) -> (l: i64)
        ensures
            l == self.spec_longueur(),
            0 <= l <= 0x1_0000_0000,
    {
        let n: u64 = self.norme_carree();
        let r: u64 = racine_entiere(n as u128);
        proof {
            if r > 0x1_0000_0000 {
                assert(r * r > 0x1_0000_0000_0000_0000) by (nonlinear_arith)
                    requires
                        r > 0x1_0000_0000,
                ;
            }
        }
        r as i64
    }

    pub fn vers_longueur(self, l: i64) -> (v: Vecteur)
        ensures
            v == self.spec_vers_longueur(l as int),
    {
        let n: u64 = self.norme_carree();
        if n == 0 {
            return Vecteur { x: 0, y: 0 };
        }
        proof {
            assert(AFFINAGE * AFFINAGE == 0x100_0000_0000) by (nonlinear_arith)
                requires
                    AFFINAGE == 0x10_0000,
            ;
            lemma_borne_produit(
                n as int,
                AFFINAGE * AFFINAGE,
                0x8000_0000_0000_0000,
                0x100_0000_0000,
            );
            assert(n * (AFFINAGE * AFFINAGE) >= 0x100_0000_0000) by (nonlinear_arith)
                requires
                    n >= 1,
                    AFFINAGE * AFFINAGE == 0x100_0000_0000,
            ;
            lemma_borne_produit(self.x as int, l as int, 0x8000_0000, 0x8000_0000_0000_0000);
            lemma_borne_produit(self.y as int, l as int, 0x8000_0000, 0x8000_0000_0000_0000);
            lemma_borne_produit(
                self.x * l,
                AFFINAGE as int,
                0x4000_0000_0000_0000_0000_0000int,
                0x10_0000,
            );
            lemma_borne_produit(
                self.y * l,
                AFFINAGE as int,
                0x4000_0000_0000_0000_0000_0000int,
                0x10_0000,
            );
        }
        let affinee: u128 = n as u128 * 0x100_0000_0000;
        let r: u64 = racine_entiere(affinee);
        proof {
            if r == 0 {
                assert((r + 1) * (r + 1) == 1) by (nonlinear_arith)
                    requires
                        r == 0,
                ;
            }
        }
        Vecteur {
            x: borner(diviser(self.x as i128 * l as i128 * 0x10_0000, r as i128)),
            y: borner(diviser(self.y as i128 * l as i128 * 0x10_0000, r as i128)),
        }
    }

    pub fn reflechi(self, d: Vecteur) -> (v: Vecteur)
        ensures
            v == self.spec_reflechi(d),
    {
        let n: u64 = d.norme_carree();
        if n == 0 {
            return self;
        }
        let s: i128 = self.scalaire(d);
        proof {
            lemma_borne_produit(2 * s, d.x as int, 0x1_0000_0000_0000_0000, 0x8000_0000);
            lemma_borne_produit(2 * s, d.y as int, 0x1_0000_0000_0000_0000, 0x8000_0000);
        }
        Vecteur {
            x: borner(self.x as i128 - diviser(2 * s * d.x as i128, n as i128)),
            y: borner(self.y as i128 - diviser(2 * s * d.y as i128, n as i128)),
        }
    }

    pub fn distance_carree(self, o: Vecteur) -> (n: u128)
        ensures
            n == self.spec_distance_carree(o),
            n <= 0x2_0000_0000_0000_0000,
    {
        let dx: i128 = self.x as i128 - o.x as i128;
        let dy: i128 = self.y as i128 - o.y as i128;
        proof {
            lemma_borne_produit(dx as int, dx as int, 0x1_0000_0000, 0x1_0000_0000);
            lemma_borne_produit(dy as int, dy as int, 0x1_0000_0000, 0x1_0000_0000);
            assert(dx * dx >= 0) by (nonlinear_arith);
            assert(dy * dy >= 0) by (nonlinear_arith);
        }
        (dx * dx + dy * dy) as u128
    }

    pub fn distance(self, o: Vecteur) -> (l: i64)
        ensures
            l == self.spec_distance(o),
            0 <= l <= 0x2_0000_0000,
    {
        let n: u128 = self.distance_carree(o);
        let r: u64 = racine_entiere(n);
        proof {
            if r > 0x2_0000_0000 {
                assert(r * r > 0x2_0000_0000_0000_0000) by (nonlinear_arith)
                    requires
                        r > 0x2_0000_0000,
                ;
            }
        }
        r as i64
    }

    pub fn a_portee(self, o: Vecteur, portee: i64) -> (b: bool)
        ensures
            b == self.spec_a_portee(o, portee as int),
    {
        if portee <= 0 {
            return false;
        }
        proof {
            lemma_borne_produit(
                portee as int,
                portee as int,
                0x8000_0000_0000_0000,
                0x8000_0000_0000_0000,
            );
        }
        let n: u128 = self.distance_carree(o);
        (n as i128) < portee as i128 * portee as i128
    }
}

} // verus!
