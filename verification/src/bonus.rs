//! The shield bonus: it appears at random, the sooner and for the longer
//! the weaker the shield is, and stays until it is picked up or its time
//! has run out.

use crate::calcul::{borne, borner};
use crate::ecran::Ecran;
use crate::hasard::tirage_plage;
use crate::vecteur::Vecteur;
use vstd::prelude::*;

verus! {

/// The radius of the bonus.
pub const RAYON_BONUS: i32 = 15_000;

/// The bonus appears no nearer than this to an edge of the field.
pub const MARGE_BONUS: i32 = 50_000;

/// Below this shield the bonus is more likely and stays longer.
pub const BOUCLIER_FAIBLE: u8 = 30;

/// The first draw of a tick falls between 0 and this; the bonus is tried
/// for where the draw is below five times the milliseconds of the tick.
pub const PLAGE_DECLENCHEUR: i32 = 150_000;

/// The second draw of a tick falls between 0 and this.
pub const PLAGE_CHANCE: i32 = 10;

/// The bonus. `timer` is the time left, in milliseconds, and means
/// something only while the bonus is visible.
#[derive(Clone, Copy, Debug, PartialEq, Eq, Structural)]
pub struct Bonus {
    pub position: Vecteur,
    pub visible: bool,
    pub timer: i32,
}

/// What is drawn for one tick of an invisible bonus.
#[derive(Clone, Copy, Debug, PartialEq, Eq, Structural)]
pub struct Tirages {
    pub declencheur: i32,
    pub chance: i32,
    pub position: Vecteur,
    pub duree: i32,
}

/// `v` lies between `a` and `b`, whichever of the two is the larger.
pub open spec fn entre(a: int, b: int, v: int) -> bool {
    (a <= b ==> a <= v <= b) && (b <= a ==> b <= v <= a)
}

/// `p` keeps the distance `MARGE_BONUS` from the edges of the field.
pub open spec fn est_position_bonus(ecran: Ecran, p: Vecteur) -> bool {
    &&& entre(MARGE_BONUS as int, borne(ecran.largeur - MARGE_BONUS), p.x as int)
    &&& entre(MARGE_BONUS as int, borne(ecran.hauteur - MARGE_BONUS), p.y as int)
}

/// The shortest time, in milliseconds, for which a bonus appears.
pub open spec fn spec_duree_min(bouclier: u8) -> int {
    if bouclier < BOUCLIER_FAIBLE {
        10_000
    } else {
        5_000
    }
}

/// The longest time, in milliseconds, for which a bonus appears.
pub open spec fn spec_duree_max(bouclier: u8) -> int {
    if bouclier < BOUCLIER_FAIBLE {
        15_000
    } else {
        10_000
    }
}

/// The first draw lets the bonus be tried for in a tick of `delta_ms`.
pub open spec fn spec_tentative(delta_ms: u32, declencheur: i32) -> bool {
    declencheur < delta_ms * 5
}

/// The second draw lets the bonus appear: two chances in ten under a weak
/// shield, one in ten otherwise.
pub open spec fn spec_chance(bouclier: u8, chance: i32) -> bool {
    if bouclier < BOUCLIER_FAIBLE {
        chance < 2
    } else {
        chance == 0
    }
}

/// `t` can be drawn on the field `ecran` under the shield `bouclier`.
pub open spec fn tirages_possibles(ecran: Ecran, bouclier: u8, t: Tirages) -> bool {
    &&& 0 <= t.declencheur <= PLAGE_DECLENCHEUR
    &&& 0 <= t.chance <= PLAGE_CHANCE
    &&& est_position_bonus(ecran, t.position)
    &&& spec_duree_min(bouclier) <= t.duree <= spec_duree_max(bouclier)
}

impl Bonus {
    /// A visible bonus after `delta_ms`: it has that much less time left,
    /// and is gone once none is left.
    pub open spec fn spec_ecoule(self, delta_ms: u32) -> Bonus {
        Bonus {
            timer: borne(self.timer - delta_ms) as i32,
            visible: borne(self.timer - delta_ms) > 0,
            ..self
        }
    }

    /// The bonus after a tick of `delta_ms` under the shield `bouclier`,
    /// where `t` is what was drawn. A visible bonus runs down and draws
    /// nothing; an invisible one appears where both draws allow it.
    pub open spec fn spec_evolue(self, delta_ms: u32, bouclier: u8, t: Tirages) -> Bonus {
        if self.visible {
            self.spec_ecoule(delta_ms)
        } else if spec_tentative(delta_ms, t.declencheur) && spec_chance(bouclier, t.chance) {
            Bonus { position: t.position, visible: true, timer: t.duree }
        } else {
            self
        }
    }

    /// The ship at `position_vaisseau`, of radius `rayon_vaisseau`, reaches
    /// the bonus.
    pub open spec fn spec_atteint(self, position_vaisseau: Vecteur, rayon_vaisseau: i32) -> bool {
        self.visible && position_vaisseau.spec_a_portee(
            self.position,
            rayon_vaisseau + RAYON_BONUS,
        )
    }

    /// The bonus after the ship tried to pick it up.
    pub open spec fn spec_collecte(self, position_vaisseau: Vecteur, rayon_vaisseau: i32) -> Bonus {
        if self.spec_atteint(position_vaisseau, rayon_vaisseau) {
            Bonus { visible: false, ..self }
        } else {
            self
        }
    }

    /// An invisible bonus, at a place drawn at random.
    pub fn nouveau_bonus(ecran: Ecran) -> (b: Bonus)
        ensures
            !b.visible,
            b.timer == 0,
            est_position_bonus(ecran, b.position),
    {
        Bonus { position: Self::position_alea(ecran), visible: false, timer: 0 }
    }

    /// Draws a place that keeps `MARGE_BONUS` from the edges.
    fn position_alea(ecran: Ecran) -> (p: Vecteur)
        ensures
            est_position_bonus(ecran, p),
    {
        let x: i32 = tirage_plage(MARGE_BONUS, borner(ecran.largeur as i128 - MARGE_BONUS as i128));
        let y: i32 = tirage_plage(MARGE_BONUS, borner(ecran.hauteur as i128 - MARGE_BONUS as i128));
        Vecteur { x, y }
    }

    /// Draws what one tick of an invisible bonus needs.
    fn tirer(ecran: Ecran, bouclier: u8) -> (t: Tirages)
        ensures
            tirages_possibles(ecran, bouclier, t),
    {
        let declencheur: i32 = tirage_plage(0, PLAGE_DECLENCHEUR);
        let chance: i32 = tirage_plage(0, PLAGE_CHANCE);
        let position = Self::position_alea(ecran);
        let duree: i32 = if bouclier < BOUCLIER_FAIBLE {
            tirage_plage(10_000, 15_000)
        } else {
            tirage_plage(5_000, 10_000)
        };
        Tirages { declencheur, chance, position, duree }
    }

    /// Lets `delta_ms` milliseconds of the time of a visible bonus pass.
    pub fn ecouler(&mut self, delta_ms: u32)
        ensures
            *final(self) == old(self).spec_ecoule(delta_ms),
    {
        self.timer = borner(self.timer as i128 - delta_ms as i128);
        self.visible = self.timer > 0;
    }

    /// One tick of `delta_ms` milliseconds under the shield `bouclier`,
    /// with what was drawn for it.
    pub fn evoluer(&mut self, delta_ms: u32, bouclier: u8, tirages: Tirages)
        ensures
            *final(self) == old(self).spec_evolue(delta_ms, bouclier, tirages),
    {
        if self.visible {
            self.ecouler(delta_ms);
        } else if (tirages.declencheur as i64) < delta_ms as i64 * 5 {
            let sourit: bool = if bouclier < BOUCLIER_FAIBLE {
                tirages.chance < 2
            } else {
                tirages.chance == 0
            };
            if sourit {
                self.position = tirages.position;
                self.visible = true;
                self.timer = tirages.duree;
            }
        }
    }

    /// One tick of `delta_ms` milliseconds under the shield `bouclier`. A
    /// visible bonus runs down and nothing is drawn; an invisible one may
    /// appear, at a place and for a time that are drawn at random.
    pub fn update_bonus(&mut self, delta_ms: u32, bouclier: u8, ecran: Ecran)
        ensures
            old(self).visible ==> *final(self) == old(self).spec_ecoule(delta_ms),
            exists|t: Tirages| #[trigger]
                tirages_possibles(ecran, bouclier, t) && *final(self) == old(self).spec_evolue(
                    delta_ms,
                    bouclier,
                    t,
                ),
    {
        if self.visible {
            self.ecouler(delta_ms);
            proof {
                let t = Tirages {
                    declencheur: 0,
                    chance: 0,
                    position: Vecteur { x: MARGE_BONUS, y: MARGE_BONUS },
                    duree: spec_duree_min(bouclier) as i32,
                };
                assert(tirages_possibles(ecran, bouclier, t));
                assert(*self == old(self).spec_evolue(delta_ms, bouclier, t));
            }
        } else {
            let tirages = Self::tirer(ecran, bouclier);
            self.evoluer(delta_ms, bouclier, tirages);
        }
    }

    /// Lets the ship pick the bonus up: a visible bonus within reach
    /// becomes invisible, which the result reports.
    pub fn verifier_collision(&mut self, position_vaisseau: Vecteur, rayon_vaisseau: i32) -> (pris: bool)
        ensures
            pris == old(self).spec_atteint(position_vaisseau, rayon_vaisseau),
            *final(self) == old(self).spec_collecte(position_vaisseau, rayon_vaisseau),
            !old(self).visible ==> !pris && *final(self) == *old(self),
    {
        if self.visible {
            if position_vaisseau.a_portee(self.position, rayon_vaisseau as i64 + RAYON_BONUS as i64) {
                self.visible = false;
                return true;
            }
        }
        false
    }
}

} // verus!
