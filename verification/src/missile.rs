//! Missiles: fired along the heading of the ship, then straight on.

use crate::cap::Cap;
use crate::vecteur::Vecteur;
use vstd::prelude::*;

verus! {

/// The distance a missile covers in one tick.
pub const VITESSE_MISSILE: i32 = 5_000;

/// How close to the rim of an asteroid the centre of a missile has to come
/// to hit it.
pub const PORTEE_MISSILE: i32 = 3_000;

/// A missile. Its velocity is set when it is fired and never changes; fired
/// along a heading of full length, it is `VITESSE_MISSILE` long.
#[derive(Clone, Copy, Debug, PartialEq, Eq, Structural)]
pub struct Missile {
    pub position: Vecteur,
    pub vitesse: Vecteur,
}

impl Missile {
    /// The missile fired at `position` along `direction`.
    pub open spec fn spec_nouveau(position: Vecteur, direction: Cap) -> Missile {
        Missile { position, vitesse: direction.spec_vecteur(VITESSE_MISSILE as int) }
    }

    /// The missile one tick later. It is not wrapped at the edges.
    pub open spec fn spec_avance(self) -> Missile {
        Missile { position: self.position.spec_plus(self.vitesse), ..self }
    }

    /// The missile `n` ticks later.
    pub open spec fn spec_avance_fois(self, n: nat) -> Missile
        decreases n,
    {
        if n == 0 {
            self
        } else {
            self.spec_avance_fois((n - 1) as nat).spec_avance()
        }
    }

    pub fn nouveau_missile(position: Vecteur, direction: Cap) -> (m: Missile)
        ensures
            m == Self::spec_nouveau(position, direction),
            direction.unitaire() ==> m.vitesse.spec_long_de(VITESSE_MISSILE as int),
    {
        let vitesse = direction.vecteur(VITESSE_MISSILE);
        Missile { position, vitesse }
    }

    pub fn maj_pos_missile(&mut self)
        ensures
            *final(self) == old(self).spec_avance(),
    {
        self.position = self.position.plus(self.vitesse);
    }

    pub fn get_position(&self) -> (p: Vecteur)
        ensures
            p == self.position,
    {
        self.position
    }
}

} // verus!
