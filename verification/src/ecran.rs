//! The play field: a rectangle from the origin to `(largeur, hauteur)`, and
//! the rule that brings a body which left it back in on the far side.

use crate::calcul::{borne, borner, quotient};
use crate::vecteur::Vecteur;
use vstd::prelude::*;

verus! {

/// The extent of the play field, in coordinate steps.
#[derive(Clone, Copy, Debug, PartialEq, Eq, Structural)]
pub struct Ecran {
    pub largeur: i32,
    pub hauteur: i32,
}

/// Where a coordinate that left `[0, max]` comes back in: one below 0 at
/// `max - coord`, one above `max` at `coord - max`. A coordinate far
/// outside is therefore not reduced modulo the extent.
pub open spec fn spec_bound_to(coord: int, max: int) -> int {
    if coord < 0 {
        borne(max - coord)
    } else if coord > max {
        borne(coord - max)
    } else {
        coord
    }
}

/// Wraps one coordinate at the edges `0` and `max`.
pub fn bound_to(coord: i32, max: i32) -> (r: i32)
    ensures
        r == spec_bound_to(coord as int, max as int),
{
    if coord < 0 {
        borner(max as i128 - coord as i128)
    } else if coord > max {
        borner(coord as i128 - max as i128)
    } else {
        coord
    }
}

impl Ecran {
    /// Neither extent is negative.
    pub open spec fn valide(self) -> bool {
        self.largeur >= 0 && self.hauteur >= 0
    }

    pub open spec fn spec_centre(self) -> Vecteur {
        Vecteur { x: quotient(self.largeur as int, 2) as i32, y: quotient(self.hauteur as int, 2) as i32 }
    }

    pub open spec fn spec_bound_pos(self, pos: Vecteur) -> Vecteur {
        Vecteur {
            x: spec_bound_to(pos.x as int, self.largeur as int) as i32,
            y: spec_bound_to(pos.y as int, self.hauteur as int) as i32,
        }
    }

    pub fn new(largeur: i32, hauteur: i32) -> (e: Ecran)
        ensures
            e.largeur == largeur,
            e.hauteur == hauteur,
    {
        Ecran { largeur, hauteur }
    }

    /// A field of `largeur` by `hauteur` whole units.
    pub fn unites(largeur: i32, hauteur: i32) -> (e: Ecran)
        ensures
            e.largeur == Vecteur::spec_unites(largeur as int, hauteur as int).x,
            e.hauteur == Vecteur::spec_unites(largeur as int, hauteur as int).y,
    {
        let v = Vecteur::unites(largeur, hauteur);
        Ecran { largeur: v.x, hauteur: v.y }
    }

    pub fn est_valide(&self) -> (b: bool)
        ensures
            b == self.valide(),
    {
        self.largeur >= 0 && self.hauteur >= 0
    }

    /// The middle of the field.
    pub fn centre(&self) -> (c: Vecteur)
        ensures
            c == self.spec_centre(),
    {
        Vecteur { x: self.largeur / 2, y: self.hauteur / 2 }
    }

    /// Wraps a position at the four edges of the field.
    pub fn bound_pos(&self, pos: Vecteur) -> (r: Vecteur)
        ensures
            r == self.spec_bound_pos(pos),
    {
        Vecteur { x: bound_to(pos.x, self.largeur), y: bound_to(pos.y, self.hauteur) }
    }
}

} // verus!
