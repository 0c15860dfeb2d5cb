//! What every body that moves has in common: a position, a velocity, a
//! step along the velocity, and the one way back into the field.

use crate::asteroid::Asteroid;
use crate::ecran::Ecran;
use crate::missile::Missile;
use crate::spaceship::Spaceship;
use crate::vecteur::Vecteur;
use vstd::prelude::*;

verus! {

/// A body that moves.
pub trait StellarObject {
    spec fn spec_position(&self) -> Vecteur;

    spec fn spec_vitesse(&self) -> Vecteur;

    fn get_position(&self) -> (p: Vecteur)
        ensures
            p == self.spec_position(),
    ;

    fn set_position(&mut self, new_position: Vecteur)
        ensures
            final(self).spec_position() == new_position,
            final(self).spec_vitesse() == old(self).spec_vitesse(),
    ;

    fn get_vitesse(&self) -> (v: Vecteur)
        ensures
            v == self.spec_vitesse(),
    ;

    fn set_vitesse(&mut self, new_vitesse: Vecteur)
        ensures
            final(self).spec_vitesse() == new_vitesse,
            final(self).spec_position() == old(self).spec_position(),
    ;

    /// Moves the body by its velocity.
    fn maj_position(&mut self)
        ensures
            final(self).spec_position() == old(self).spec_position().spec_plus(
                old(self).spec_vitesse(),
            ),
            final(self).spec_vitesse() == old(self).spec_vitesse(),
    {
        let position_actuelle = self.get_position();
        let vitesse = self.get_vitesse();
        self.set_position(position_actuelle.plus(vitesse));
    }

    /// Wraps a body that left the field at the edges, as `Ecran::bound_pos`
    /// does: a coordinate below 0 comes back in at the extent less the
    /// coordinate, one above the extent at the coordinate less the extent.
    fn gestion_bords(&mut self, ecran: Ecran)
        ensures
            final(self).spec_position() == ecran.spec_bound_pos(old(self).spec_position()),
            final(self).spec_vitesse() == old(self).spec_vitesse(),
    {
        let position = self.get_position();
        self.set_position(ecran.bound_pos(position));
    }
}

impl StellarObject for Asteroid {
    open spec fn spec_position(&self) -> Vecteur {
        self.position
    }

    open spec fn spec_vitesse(&self) -> Vecteur {
        self.speed
    }

    fn get_position(&self) -> (p: Vecteur) {
        self.position
    }

    fn set_position(&mut self, new_position: Vecteur)
        ensures
            *final(self) == (Asteroid { position: new_position, ..*old(self) }),
    {
        self.position = new_position;
    }

    fn get_vitesse(&self) -> (v: Vecteur) {
        self.speed
    }

    fn set_vitesse(&mut self, new_vitesse: Vecteur)
        ensures
            *final(self) == (Asteroid { speed: new_vitesse, ..*old(self) }),
    {
        self.speed = new_vitesse;
    }
}

impl StellarObject for Missile {
    open spec fn spec_position(&self) -> Vecteur {
        self.position
    }

    open spec fn spec_vitesse(&self) -> Vecteur {
        self.vitesse
    }

    fn get_position(&self) -> (p: Vecteur) {
        self.position
    }

    fn set_position(&mut self, new_position: Vecteur)
        ensures
            *final(self) == (Missile { position: new_position, ..*old(self) }),
    {
        self.position = new_position;
    }

    fn get_vitesse(&self) -> (v: Vecteur) {
        self.vitesse
    }

    fn set_vitesse(&mut self, new_vitesse: Vecteur)
        ensures
            *final(self) == (Missile { vitesse: new_vitesse, ..*old(self) }),
    {
        self.vitesse = new_vitesse;
    }
}

impl StellarObject for Spaceship {
    open spec fn spec_position(&self) -> Vecteur {
        self.position
    }

    open spec fn spec_vitesse(&self) -> Vecteur {
        self.vitesse
    }

    fn get_position(&self) -> (p: Vecteur) {
        self.position
    }

    fn set_position(&mut self, new_position: Vecteur)
        ensures
            *final(self) == (Spaceship { position: new_position, ..*old(self) }),
    {
        self.position = new_position;
    }

    fn get_vitesse(&self) -> (v: Vecteur) {
        self.vitesse
    }

    fn set_vitesse(&mut self, new_vitesse: Vecteur)
        ensures
            *final(self) == (Spaceship { vitesse: new_vitesse, ..*old(self) }),
    {
        self.vitesse = new_vitesse;
    }
}

} // verus!
