//! Asteroids: three sizes, each with a radius and a number of hits it
//! withstands; a velocity that a collision changes and friction settles.

use crate::calcul::{borne, borner};
use crate::cap::{Cap, PAS_PAR_TOUR};
use crate::ecran::Ecran;
use crate::hasard::tirage_inclus;
use crate::vecteur::{Vecteur, UNITE};
use vstd::prelude::*;

verus! {

/// The radius of a medium asteroid, the measure of the other two sizes and
/// of the band along the edges in which new asteroids appear.
pub const ASTEROID_INIT_SIZE: i32 = 60_000;

/// How far from the centre of a destroyed asteroid each fragment appears.
pub const ECART_FRAGMENTS: i32 = 50_000;

/// Friction keeps this many hundredths of the velocity per tick.
pub const FRICTION_ASTEROID: i32 = 98;

/// An asteroid. `taille` is 1 (small), 2 (medium) or 3 (large) and never
/// changes; `speed_min` is the velocity it was created with.
#[derive(Clone, Copy, Debug, PartialEq, Eq, Structural)]
pub struct Asteroid {
    pub position: Vecteur,
    pub speed: Vecteur,
    pub speed_min: Vecteur,
    pub taille: u8,
    pub resistance: u8,
}

/// The hits an asteroid of a given size withstands when it is created.
pub open spec fn spec_resistance_initiale(taille: u8) -> u8 {
    if taille == 2 {
        3
    } else if taille == 3 {
        5
    } else {
        1
    }
}

/// The radius of an asteroid of a given size: half, once and one and a
/// half times `ASTEROID_INIT_SIZE`. Any other size counts as medium.
pub open spec fn spec_rayon(taille: u8) -> int {
    if taille == 1 {
        ASTEROID_INIT_SIZE / 2
    } else if taille == 3 {
        ASTEROID_INIT_SIZE + ASTEROID_INIT_SIZE / 2
    } else {
        ASTEROID_INIT_SIZE as int
    }
}

/// The size of the two fragments that a destroyed asteroid leaves, if it
/// leaves any: a large one leaves medium ones, a medium one small ones.
pub open spec fn spec_taille_fragments(taille: u8) -> Option<u8> {
    if taille == 3 {
        Some(2u8)
    } else if taille == 2 {
        Some(1u8)
    } else {
        None
    }
}

/// The place at the distance `marge` from the edge `cote` (1 top, 2 right,
/// 3 bottom, 4 left), `libre` along that edge.
pub open spec fn spec_position_bord(ecran: Ecran, marge: i32, cote: i32, libre: i32) -> Vecteur {
    Vecteur {
        x: if cote == 2 {
            borne(ecran.largeur - marge) as i32
        } else if cote == 4 {
            marge
        } else {
            libre
        },
        y: if cote == 1 {
            marge
        } else if cote == 3 {
            borne(ecran.hauteur - marge) as i32
        } else {
            libre
        },
    }
}

/// `p` lies in the band along one of the four edges: between half of and
/// the whole of `ASTEROID_INIT_SIZE` from that edge, anywhere along it.
pub open spec fn est_position_de_bord(ecran: Ecran, p: Vecteur) -> bool {
    exists|marge: i32, cote: i32, libre: i32|
        {
            &&& ASTEROID_INIT_SIZE / 2 <= marge <= ASTEROID_INIT_SIZE
            &&& 1 <= cote <= 4
            &&& 0 <= libre <= (if cote == 2 || cote == 4 {
                ecran.hauteur
            } else {
                ecran.largeur
            })
            &&& p == #[trigger] spec_position_bord(ecran, marge, cote, libre)
        }
}

/// `v` is the velocity of length `UNITE` along one of the headings of a
/// full turn.
pub open spec fn est_vitesse_de_depart(v: Vecteur) -> bool {
    exists|pas: nat| pas < PAS_PAR_TOUR && v == (#[trigger] Cap::spec_depuis_pas(pas)).spec_vecteur(UNITE as int)
}

/// The two places, on either side of the line of fire, where the fragments
/// of an asteroid at `asteroid_pos` appear when a missile at `missile_pos`
/// destroys it: `ECART_FRAGMENTS` from the centre, at right angles to the
/// line from the missile to the centre.
pub open spec fn spec_positions_apres_collision(missile_pos: Vecteur, asteroid_pos: Vecteur) -> (
    Vecteur,
    Vecteur,
) {
    let ecart = asteroid_pos.spec_moins(missile_pos).spec_perpendiculaire().spec_vers_longueur(
        ECART_FRAGMENTS as int,
    );
    (asteroid_pos.spec_plus(ecart), asteroid_pos.spec_moins(ecart))
}

pub fn resistance_initiale(taille: u8) -> (r: u8)
    ensures
        r == spec_resistance_initiale(taille),
{
    match taille {
        1 => 1,
        2 => 3,
        3 => 5,
        _ => 1,
    }
}

pub fn taille_fragments(taille: u8) -> (f: Option<u8>)
    ensures
        f == spec_taille_fragments(taille),
{
    match taille {
        3 => Some(2),
        2 => Some(1),
        _ => None,
    }
}

/// The position of a new asteroid from what was drawn for it.
pub fn position_bord(ecran: Ecran, marge: i32, cote: i32, libre: i32) -> (p: Vecteur)
    ensures
        p == spec_position_bord(ecran, marge, cote, libre),
{
    let xpos: i32 = match cote {
        2 => borner(ecran.largeur as i128 - marge as i128),
        4 => marge,
        _ => libre,
    };
    let ypos: i32 = match cote {
        1 => marge,
        3 => borner(ecran.hauteur as i128 - marge as i128),
        _ => libre,
    };
    Vecteur { x: xpos, y: ypos }
}

pub fn positions_asteroides_apres_collision(missile_pos: Vecteur, asteroid_pos: Vecteur) -> (r: (
    Vecteur,
    Vecteur,
))
    ensures
        r == spec_positions_apres_collision(missile_pos, asteroid_pos),
{
    let direction_missile = asteroid_pos.moins(missile_pos);
    let perpendiculaire = direction_missile.perpendiculaire();
    let ecart = perpendiculaire.vers_longueur(ECART_FRAGMENTS as i64);
    (asteroid_pos.plus(ecart), asteroid_pos.moins(ecart))
}

impl Asteroid {
    /// The asteroid of a given size, place and velocity, unharmed.
    pub open spec fn spec_avec_vitesse(taille: u8, position: Vecteur, vitesse: Vecteur) -> Asteroid {
        Asteroid {
            position,
            speed: vitesse,
            speed_min: vitesse,
            taille,
            resistance: spec_resistance_initiale(taille),
        }
    }

    /// The asteroid after one hit.
    pub open spec fn spec_touche(self) -> Asteroid {
        Asteroid {
            resistance: if self.resistance > 0 {
                (self.resistance - 1) as u8
            } else {
                0
            },
            ..self
        }
    }

    /// The asteroid after `n` hits.
    pub open spec fn spec_touche_fois(self, n: nat) -> Asteroid
        decreases n,
    {
        if n == 0 {
            self
        } else {
            self.spec_touche_fois((n - 1) as nat).spec_touche()
        }
    }

    pub open spec fn spec_est_detruit(self) -> bool {
        self.resistance == 0
    }

    /// The asteroid one tick later: moved by its velocity, then wrapped at
    /// the edges of the field.
    pub open spec fn spec_deplace(self, ecran: Ecran) -> Asteroid {
        Asteroid { position: ecran.spec_bound_pos(self.position.spec_plus(self.speed)), ..self }
    }

    /// The asteroid after one tick of friction: while it is faster than it
    /// was created, it keeps 98 hundredths of its velocity. The step may
    /// take it below the speed it was created with; nothing brings it back.
    pub open spec fn spec_freine(self) -> Asteroid {
        if self.speed.spec_norme_carree() > self.speed_min.spec_norme_carree() {
            Asteroid { speed: self.speed.spec_fraction(FRICTION_ASTEROID as int, 100), ..self }
        } else {
            self
        }
    }

    /// The asteroid after it bounced off something that lies in the
    /// direction `d`: its velocity is mirrored. A `d` without direction
    /// leaves it as it is.
    pub open spec fn spec_rebondi(self, d: Vecteur) -> Asteroid {
        Asteroid { speed: self.speed.spec_reflechi(d), ..self }
    }

    /// A new asteroid of a size, a heading and a place along an edge that
    /// are all drawn at random.
    pub fn new(ecran: Ecran) -> (a: Asteroid)
        requires
            ecran.valide(),
        ensures
            1 <= a.taille <= 3,
            a == Self::spec_avec_vitesse(a.taille, a.position, a.speed),
            est_vitesse_de_depart(a.speed),
            a.speed.spec_long_de(UNITE as int),
            est_position_de_bord(ecran, a.position),
    {
        let taille: u8 = tirage_inclus(1, 3) as u8;
        let vitesse = Self::new_alea_speed();
        let position = Self::new_alea_pos(ecran);
        Self::avec_vitesse(taille, position, vitesse)
    }

    /// A new asteroid of a given size and place, with a heading drawn at
    /// random.
    pub fn nouvel_asteroid(taille: u8, position: Vecteur) -> (a: Asteroid)
        ensures
            a == Self::spec_avec_vitesse(taille, position, a.speed),
            est_vitesse_de_depart(a.speed),
            a.speed.spec_long_de(UNITE as int),
    {
        let vitesse = Self::new_alea_speed();
        Self::avec_vitesse(taille, position, vitesse)
    }

    /// The asteroid of a given size, place and velocity, unharmed.
    pub fn avec_vitesse(taille: u8, position: Vecteur, vitesse: Vecteur) -> (a: Asteroid)
        ensures
            a == Self::spec_avec_vitesse(taille, position, vitesse),
    {
        Asteroid {
            position,
            speed: vitesse,
            speed_min: vitesse,
            taille,
            resistance: resistance_initiale(taille),
        }
    }

    pub fn get_position(&self) -> (p: Vecteur)
        ensures
            p == self.position,
    {
        self.position
    }

    pub fn get_taille(&self) -> (t: u8)
        ensures
            t == self.taille,
    {
        self.taille
    }

    pub fn get_resistance(&self) -> (r: u8)
        ensures
            r == self.resistance,
    {
        self.resistance
    }

    /// Takes one hit: one less to withstand, and never less than none.
    pub fn diminuer_resistance(&mut self)
        ensures
            *final(self) == old(self).spec_touche(),
    {
        if self.resistance > 0 {
            self.resistance -= 1;
        }
    }

    pub fn est_detruit(&self) -> (b: bool)
        ensures
            b == self.spec_est_detruit(),
    {
        self.resistance == 0
    }

    /// Moves the asteroid by its velocity and wraps it at the edges.
    pub fn move_object(&mut self, ecran: Ecran) -> (p: Vecteur)
        ensures
            *final(self) == old(self).spec_deplace(ecran),
            p == final(self).position,
    {
        self.position = self.position.plus(self.speed);
        self.position = ecran.bound_pos(self.position);
        self.position
    }

    pub fn nouvelle_vitesse(&mut self, nv_vitesse: Vecteur)
        ensures
            *final(self) == (Asteroid { speed: nv_vitesse, ..*old(self) }),
    {
        self.speed = nv_vitesse;
    }

    /// One tick of friction, which settles an asteroid that was struck.
    pub fn appliquer_resistance(&mut self)
        ensures
            *final(self) == old(self).spec_freine(),
    {
        if self.speed.norme_carree() > self.speed_min.norme_carree() {
            self.speed = self.speed.fraction(FRICTION_ASTEROID, 100);
        }
    }

    pub fn rayon_asteroid(&self) -> (r: i32)
        ensures
            r == spec_rayon(self.taille),
    {
        match self.taille {
            1 => ASTEROID_INIT_SIZE / 2,
            2 => ASTEROID_INIT_SIZE,
            3 => ASTEROID_INIT_SIZE + ASTEROID_INIT_SIZE / 2,
            _ => ASTEROID_INIT_SIZE,
        }
    }

    /// Bounces off something that lies in the direction `collision_direction`.
    pub fn rebondir(&mut self, collision_direction: Vecteur)
        ensures
            *final(self) == old(self).spec_rebondi(collision_direction),
    {
        self.speed = self.speed.reflechi(collision_direction);
    }

    /// Draws a place in the band along one of the four edges.
    fn new_alea_pos(ecran: Ecran) -> (p: Vecteur)
        requires
            ecran.valide(),
        ensures
            est_position_de_bord(ecran, p),
    {
        let nearpos: i32 = tirage_inclus(ASTEROID_INIT_SIZE / 2, ASTEROID_INIT_SIZE);
        let nearside: i32 = tirage_inclus(1, 4);
        let libre: i32 = if nearside == 2 || nearside == 4 {
            tirage_inclus(0, ecran.hauteur)
        } else {
            tirage_inclus(0, ecran.largeur)
        };
        position_bord(ecran, nearpos, nearside, libre)
    }

    /// Draws a heading and gives the unit velocity along it.
    fn new_alea_speed() -> (v: Vecteur)
        ensures
            est_vitesse_de_depart(v),
            v.spec_long_de(UNITE as int),
    {
        let pas: i32 = tirage_inclus(0, PAS_PAR_TOUR - 1);
        Cap::depuis_pas(pas as u32).vecteur(UNITE)
    }
}

} // verus!
