//! The ship: steered by four keys, slowed by drag, pushed out of every
//! asteroid it runs into, and protected by a shield that each collision
//! wears down, at most once every half second.

use crate::asteroid::{spec_rayon, Asteroid};
use crate::calcul::{borne, borner, quotient};
use crate::cap::Cap;
use crate::ecran::Ecran;
use crate::vecteur::Vecteur;
use vstd::prelude::*;

verus! {

/// The radius of the ship.
pub const RAYON_VAISSEAU: i32 = 15_000;

/// The velocity that one tick of thrust adds along the heading.
pub const POUSSEE: i32 = 200;

/// Drag keeps this many hundredths of the velocity per tick.
pub const TRAINEE: i32 = 97;

/// A full shield.
pub const BOUCLIER_MAX: u8 = 100;

/// Milliseconds that have to pass after a collision that cost shield
/// before another one costs shield again.
pub const DELAI_BOUCLIER: u64 = 500;

/// Above this speed the ship knocks an asteroid away.
pub const SEUIL_IMPULSION: i64 = 100;

/// The keys held during one tick.
#[derive(Clone, Copy, Debug, PartialEq, Eq, Structural)]
pub struct Commandes {
    pub gauche: bool,
    pub droite: bool,
    pub haut: bool,
    pub bas: bool,
}

/// The ship. `rotation` counts the steps of 0.05 radian that `cap` was
/// turned from angle 0; `cooldown` is the time, in milliseconds, of the
/// last collision that cost shield.
#[derive(Clone, Copy, Debug, PartialEq, Eq, Structural)]
pub struct Spaceship {
    pub position: Vecteur,
    pub vitesse: Vecteur,
    pub rotation: i32,
    pub cap: Cap,
    pub bouclier: u8,
    pub cooldown: u64,
}

/// The shield that a collision with an asteroid of a given size costs.
pub open spec fn spec_cout_bouclier(taille: u8) -> u8 {
    if taille == 1 {
        10
    } else if taille == 2 {
        15
    } else if taille == 3 {
        25
    } else {
        0
    }
}

/// More than `DELAI_BOUCLIER` has passed between `cooldown` and `temps`.
pub open spec fn spec_delai_ecoule(cooldown: u64, temps: u64) -> bool {
    temps - cooldown > DELAI_BOUCLIER
}

pub fn cout_bouclier(taille: u8) -> (c: u8)
    ensures
        c == spec_cout_bouclier(taille),
{
    match taille {
        1 => 10,
        2 => 15,
        3 => 25,
        _ => 0,
    }
}

impl Spaceship {
    /// The shield is no more than a full one, and the heading has its
    /// full length.
    pub open spec fn valide(self) -> bool {
        self.bouclier <= BOUCLIER_MAX && self.cap.unitaire()
    }

    /// The ship at the start of a round: at rest in the middle of the
    /// field, heading along angle 0, with a full shield.
    pub open spec fn spec_new(ecran: Ecran) -> Spaceship {
        Spaceship {
            position: ecran.spec_centre(),
            vitesse: Vecteur { x: 0, y: 0 },
            rotation: 0,
            cap: Cap::spec_initial(),
            bouclier: BOUCLIER_MAX,
            cooldown: 0,
        }
    }

    /// The ship brought back to the middle of the field and stopped.
    pub open spec fn spec_recentre(self, ecran: Ecran) -> Spaceship {
        Spaceship { position: ecran.spec_centre(), vitesse: Vecteur { x: 0, y: 0 }, ..self }
    }

    /// The ship after the turn keys: one step back for `gauche`, then one
    /// step on for `droite`.
    pub open spec fn spec_tourne(self, c: Commandes) -> Spaceship {
        let a = if c.gauche {
            Spaceship {
                rotation: borne(self.rotation - 1) as i32,
                cap: self.cap.spec_tourne(-1),
                ..self
            }
        } else {
            self
        };
        if c.droite {
            Spaceship { rotation: borne(a.rotation + 1) as i32, cap: a.cap.spec_tourne(1), ..a }
        } else {
            a
        }
    }

    /// The ship after the thrust keys: `POUSSEE` more along the heading for
    /// `haut`, then as much less for `bas`.
    pub open spec fn spec_pousse(self, c: Commandes) -> Spaceship {
        let a = if c.haut {
            Spaceship { vitesse: self.vitesse.spec_plus(self.cap.spec_vecteur(POUSSEE as int)), ..self }
        } else {
            self
        };
        if c.bas {
            Spaceship { vitesse: a.vitesse.spec_moins(a.cap.spec_vecteur(POUSSEE as int)), ..a }
        } else {
            a
        }
    }

    /// The ship after drag and one tick of motion, wrapped at the edges.
    pub open spec fn spec_glisse(self, ecran: Ecran) -> Spaceship {
        let vitesse = self.vitesse.spec_fraction(TRAINEE as int, 100);
        Spaceship { vitesse, position: ecran.spec_bound_pos(self.position.spec_plus(vitesse)), ..self }
    }

    /// The ship after one tick of steering: turn, thrust, drag, motion.
    pub open spec fn spec_pilote(self, c: Commandes, ecran: Ecran) -> Spaceship {
        self.spec_tourne(c).spec_pousse(c).spec_glisse(ecran)
    }

    /// The ship and the asteroid overlap.
    pub open spec fn spec_touche(self, a: Asteroid) -> bool {
        self.position.spec_a_portee(a.position, RAYON_VAISSEAU + spec_rayon(a.taille))
    }

    /// The shield after a collision with an asteroid of size `taille` at
    /// the time `temps`: less by the cost of that size, and not less than
    /// none, where the delay since the last such loss has passed.
    pub open spec fn spec_bouclier_apres(self, taille: u8, temps: u64) -> u8 {
        if spec_delai_ecoule(self.cooldown, temps) {
            if self.bouclier >= spec_cout_bouclier(taille) {
                (self.bouclier - spec_cout_bouclier(taille)) as u8
            } else {
                0
            }
        } else {
            self.bouclier
        }
    }

    /// The ship and an asteroid after they were held against each other at
    /// the time `temps`. Where they overlap: the ship is pushed back out of
    /// the asteroid, the asteroid bounces, the shield pays, a ship faster
    /// than `SEUIL_IMPULSION` knocks the asteroid away at 1.2 times its own
    /// speed, and the ship loses half of its velocity. Overlap or not, the
    /// asteroid then undergoes one tick of friction.
    pub open spec fn spec_rencontre(self, a: Asteroid, temps: u64) -> (Spaceship, Asteroid) {
        if self.spec_touche(a) {
            let portee = RAYON_VAISSEAU + spec_rayon(a.taille);
            let direction = a.position.spec_moins(self.position);
            let correction = direction.spec_vers_longueur(
                portee - self.position.spec_distance(a.position),
            );
            let rebondi = a.spec_rebondi(direction);
            let pousse = if self.vitesse.spec_norme_carree() > SEUIL_IMPULSION * SEUIL_IMPULSION {
                Asteroid {
                    speed: direction.spec_vers_longueur(
                        quotient(self.vitesse.spec_longueur() * 12, 10),
                    ),
                    ..rebondi
                }
            } else {
                rebondi
            };
            (
                Spaceship {
                    position: self.position.spec_moins(correction),
                    vitesse: self.vitesse.spec_fraction(1, 2),
                    bouclier: self.spec_bouclier_apres(a.taille, temps),
                    cooldown: if spec_delai_ecoule(self.cooldown, temps) {
                        temps
                    } else {
                        self.cooldown
                    },
                    ..self
                },
                pousse.spec_freine(),
            )
        } else {
            (self, a.spec_freine())
        }
    }

    /// The ship and the asteroids after the ship was held against the first
    /// `n` of them, one after the other in the order of the list.
    pub open spec fn spec_collisions(self, asteroids: Seq<Asteroid>, temps: u64, n: nat) -> (
        Spaceship,
        Seq<Asteroid>,
    )
        decreases n,
    {
        if n == 0 {
            (self, asteroids)
        } else {
            let avant = self.spec_collisions(asteroids, temps, (n - 1) as nat);
            let r = avant.0.spec_rencontre(avant.1[n - 1], temps);
            (r.0, avant.1.update(n - 1, r.1))
        }
    }

    pub fn new(ecran: Ecran) -> (s: Spaceship)
        ensures
            s == Self::spec_new(ecran),
            s.valide(),
    {
        Spaceship {
            position: ecran.centre(),
            vitesse: Vecteur { x: 0, y: 0 },
            rotation: 0,
            cap: Cap::initial(),
            bouclier: BOUCLIER_MAX,
            cooldown: 0,
        }
    }

    pub fn get_position(&self) -> (p: Vecteur)
        ensures
            p == self.position,
    {
        self.position
    }

    pub fn get_bouclier(&self) -> (b: u8)
        ensures
            b == self.bouclier,
    {
        self.bouclier
    }

    /// The heading, counted in steps of 0.05 radian from angle 0.
    pub fn get_rotation(&self) -> (r: i32)
        ensures
            r == self.rotation,
    {
        self.rotation
    }

    /// The heading as a direction.
    pub fn get_cap(&self) -> (c: Cap)
        ensures
            c == self.cap,
    {
        self.cap
    }

    /// Back to the middle of the field, at rest. Shield, heading and the
    /// time of the last collision stay.
    pub fn recentrer(&mut self, ecran: Ecran)
        ensures
            *final(self) == old(self).spec_recentre(ecran),
    {
        self.position = ecran.centre();
        self.vitesse = Vecteur { x: 0, y: 0 };
    }

    /// Fills the shield.
    pub fn restaurer_bouclier(&mut self)
        ensures
            *final(self) == (Spaceship { bouclier: BOUCLIER_MAX, ..*old(self) }),
    {
        self.bouclier = BOUCLIER_MAX
    }

    /// One tick of steering: turn, thrust, drag, motion.
    pub fn piloter(&mut self, commandes: Commandes, ecran: Ecran)
        ensures
            *final(self) == old(self).spec_pilote(commandes, ecran),
            old(self).valide() ==> final(self).valide(),
    {
        if commandes.gauche {
            self.rotation = borner(self.rotation as i128 - 1);
            self.cap = self.cap.gauche();
        }
        if commandes.droite {
            self.rotation = borner(self.rotation as i128 + 1);
            self.cap = self.cap.droite();
        }
        if commandes.haut {
            let accel = self.cap.vecteur(POUSSEE);
            self.vitesse = self.vitesse.plus(accel);
        }
        if commandes.bas {
            let accel = self.cap.vecteur(POUSSEE);
            self.vitesse = self.vitesse.moins(accel);
        }
        self.vitesse = self.vitesse.fraction(TRAINEE, 100);
        self.position = self.position.plus(self.vitesse);
        self.position = ecran.bound_pos(self.position);
    }

    /// Holds the ship against one asteroid at the time `temps`, and lets
    /// the asteroid undergo one tick of friction.
    pub fn heurter(&mut self, asteroid: &mut Asteroid, temps: u64)
        ensures
            (*final(self), *final(asteroid)) == old(self).spec_rencontre(*old(asteroid), temps),
            final(self).bouclier <= old(self).bouclier,
            final(self).cap == old(self).cap,
    {
        let distance_collision: i32 = RAYON_VAISSEAU + asteroid.rayon_asteroid();
        if self.position.a_portee(asteroid.get_position(), distance_collision as i64) {
            let distance: i64 = self.position.distance(asteroid.get_position());
            let collision_direction = asteroid.get_position().moins(self.position);
            let correction_vector = collision_direction.vers_longueur(
                distance_collision as i64 - distance,
            );
            self.position = self.position.moins(correction_vector);
            asteroid.rebondir(collision_direction);
            if temps > self.cooldown && temps - self.cooldown > DELAI_BOUCLIER {
                self.cooldown = temps;
                let cout: u8 = cout_bouclier(asteroid.get_taille());
                self.bouclier = if self.bouclier >= cout {
                    self.bouclier - cout
                } else {
                    0
                };
            }
            if self.vitesse.norme_carree() > (SEUIL_IMPULSION * SEUIL_IMPULSION) as u64 {
                let elan: i64 = self.vitesse.longueur() * 12 / 10;
                let impulse = collision_direction.vers_longueur(elan);
                asteroid.nouvelle_vitesse(impulse);
            }
            self.vitesse = self.vitesse.fraction(1, 2);
        }
        asteroid.appliquer_resistance();
    }

    /// One tick of the ship: steering, then every asteroid of the list in
    /// turn is held against the ship and undergoes friction.
    pub fn maj_pos(
        &mut self,
        asteroids: &mut Vec<Asteroid>,
        commandes: Commandes,
        ecran: Ecran,
        temps: u64,
    )
        ensures
            final(asteroids).len() == old(asteroids).len(),
            (*final(self), final(asteroids)@) == old(self).spec_pilote(
                commandes,
                ecran,
            ).spec_collisions(old(asteroids)@, temps, old(asteroids).len() as nat),
            final(self).bouclier <= old(self).bouclier,
            old(self).valide() ==> final(self).valide(),
    {
        self.piloter(commandes, ecran);
        let ghost depart = *self;
        let n: usize = asteroids.len();
        let mut i: usize = 0;
        while i < n
            invariant
                i <= n,
                asteroids.len() == n,
                n == old(asteroids).len(),
                (*self, asteroids@) == depart.spec_collisions(old(asteroids)@, temps, i as nat),
                self.bouclier <= depart.bouclier,
                self.cap == depart.cap,
            decreases n - i,
        {
            let mut asteroid: Asteroid = asteroids[i];
            self.heurter(&mut asteroid, temps);
            asteroids.set(i, asteroid);
            i = i + 1;
        }
    }
}

} // verus!
