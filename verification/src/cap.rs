//! Headings. A heading is held as a vector of length `CAP_ECHELLE` and
//! turns in steps of 0.05 radian, so that no angle is ever measured. A
//! heading made by the functions of this module keeps that length.

use crate::calcul::{borne, borner, diviser, quotient};
use crate::mesures::{lemma_cap_vecteur, lemma_depuis_pas, lemma_tourne};
use crate::vecteur::{lemma_borne_produit, Vecteur};
use vstd::prelude::*;

verus! {

/// The length of a heading vector: 2 to the power 30.
pub const CAP_ECHELLE: i32 = 0x4000_0000;

/// The cosine of one step of 0.05 radian, times `CAP_ECHELLE`.
pub const PAS_COS: i32 = 1072399926;

/// The sine of one step of 0.05 radian, times `CAP_ECHELLE`.
pub const PAS_SIN: i32 = 53664724;

/// Steps of 0.05 radian after which every direction of a full turn,
/// to the nearest step, has been taken: 126 steps pass 2 pi.
pub const PAS_PAR_TOUR: i32 = 126;

/// A direction in the plane.
#[derive(Clone, Copy, Debug, PartialEq, Eq, Structural)]
pub struct Cap {
    pub v: Vecteur,
}

impl Cap {
    /// The heading is as long as a heading is to be: `CAP_ECHELLE`, to
    /// within three steps of a coordinate below it and one above.
    pub open spec fn unitaire(self) -> bool {
        self.v.spec_long_de(CAP_ECHELLE as int)
    }

    /// The heading of angle 0: along the x axis.
    pub open spec fn spec_initial() -> Cap {
        Cap { v: Vecteur { x: CAP_ECHELLE, y: 0 } }
    }

    /// The heading one step further (`sens` 1) or one step back (`sens` -1):
    /// the rotation by the step's angle, brought back to full length.
    pub open spec fn spec_tourne(self, sens: int) -> Cap {
        Cap {
            v: (Vecteur {
                x: borne(
                    quotient(
                        self.v.x * PAS_COS - sens * (self.v.y * PAS_SIN),
                        CAP_ECHELLE as int,
                    ),
                ) as i32,
                y: borne(
                    quotient(
                        sens * (self.v.x * PAS_SIN) + self.v.y * PAS_COS,
                        CAP_ECHELLE as int,
                    ),
                ) as i32,
            }).spec_vers_longueur(CAP_ECHELLE as int),
        }
    }

    /// The heading after `n` steps from angle 0.
    pub open spec fn spec_depuis_pas(n: nat) -> Cap
        decreases n,
    {
        if n == 0 {
            Self::spec_initial()
        } else {
            Self::spec_depuis_pas((n - 1) as nat).spec_tourne(1)
        }
    }

    /// The vector of length `l` along the heading.
    pub open spec fn spec_vecteur(self, l: int) -> Vecteur {
        self.v.spec_fraction(l, CAP_ECHELLE as int)
    }

    pub fn initial() -> (c: Cap)
        ensures
            c == Self::spec_initial(),
            c.unitaire(),
    {
        proof {
            lemma_depuis_pas(0);
        }
        Cap { v: Vecteur { x: CAP_ECHELLE, y: 0 } }
    }

    /// Whether the heading is as long as a heading is to be.
    pub fn est_unitaire(&self) -> (b: bool)
        ensures
            b == self.unitaire(),
    {
        let n: u64 = self.v.norme_carree();
        1152921498164396041 < n && n < 1152921506754330625
    }

    fn tourne(self, sens: i128) -> (c: Cap)
        requires
            sens == 1 || sens == -1,
        ensures
            c == self.spec_tourne(sens as int),
            self.unitaire() ==> c.unitaire(),
    {
        proof {
            if self.unitaire() {
                lemma_tourne(self, sens as int);
            }
            lemma_borne_produit(self.v.x as int, PAS_COS as int, 0x8000_0000, 0x8000_0000);
            lemma_borne_produit(self.v.y as int, PAS_COS as int, 0x8000_0000, 0x8000_0000);
            lemma_borne_produit(self.v.x as int, PAS_SIN as int, 0x8000_0000, 0x8000_0000);
            lemma_borne_produit(self.v.y as int, PAS_SIN as int, 0x8000_0000, 0x8000_0000);
        }
        let xc: i128 = self.v.x as i128 * PAS_COS as i128;
        let ys: i128 = self.v.y as i128 * PAS_SIN as i128;
        let xs: i128 = self.v.x as i128 * PAS_SIN as i128;
        let yc: i128 = self.v.y as i128 * PAS_COS as i128;
        let w = Vecteur {
            x: borner(diviser(xc - sens * ys, CAP_ECHELLE as i128)),
            y: borner(diviser(sens * xs + yc, CAP_ECHELLE as i128)),
        };
        Cap { v: w.vers_longueur(CAP_ECHELLE as i64) }
    }

    /// Turns one step of 0.05 radian toward larger angles.
    pub fn droite(self) -> (c: Cap)
        ensures
            c == self.spec_tourne(1),
            self.unitaire() ==> c.unitaire(),
    {
        self.tourne(1)
    }

    /// Turns one step of 0.05 radian toward smaller angles.
    pub fn gauche(self) -> (c: Cap)
        ensures
            c == self.spec_tourne(-1),
            self.unitaire() ==> c.unitaire(),
    {
        self.tourne(-1)
    }

    /// The heading of angle `n` steps.
    pub fn depuis_pas(n: u32) -> (c: Cap)
        ensures
            c == Self::spec_depuis_pas(n as nat),
            c.unitaire(),
    {
        proof {
            lemma_depuis_pas(n as nat);
        }
        let mut c = Cap::initial();
        let mut i: u32 = 0;
        while i < n
            invariant
                i <= n,
                c == Self::spec_depuis_pas(i as nat),
            decreases n - i,
        {
            c = c.droite();
            i = i + 1;
        }
        c
    }

    pub fn vecteur(self, l: i32) -> (v: Vecteur)
        ensures
            v == self.spec_vecteur(l as int),
            self.unitaire() && 6 <= l <= 0x10_0000 ==> v.spec_long_de(l as int),
    {
        proof {
            if self.unitaire() && 6 <= l <= 0x10_0000 {
                lemma_cap_vecteur(self, l as int);
            }
        }
        self.v.fraction(l, CAP_ECHELLE)
    }
}

} // verus!
