//! A round of the game: the asteroids, the missiles, the ship and the
//! bonus, and what one frame makes of them.
//!
//! While the ship has shield left, a frame is a tick of play. Once the
//! shield is down to nothing the round is lost, and frames change nothing
//! until the player asks for a new round.

use crate::asteroid::{est_position_de_bord, est_vitesse_de_depart, Asteroid};
use crate::bonus::{est_position_bonus, tirages_possibles, Bonus, Tirages};
use crate::ecran::Ecran;
use crate::missile::Missile;
use crate::spaceship::{Commandes, Spaceship, BOUCLIER_MAX, RAYON_VAISSEAU};
use crate::tirs::{
    ajouter_eclats, est_avec_fragments, resoudre_tirs, retirer_detruits, spec_survivants,
    spec_tirs, Bilan,
};
use vstd::prelude::*;

verus! {

/// Asteroids at the start of a round.
pub const ASTEROIDES_AU_DEPART: u64 = 8;

/// A cleared field is filled with this many asteroids and one more for
/// each level reached.
pub const ASTEROIDES_DE_BASE: u64 = 4;

/// Whether the round goes on.
#[derive(Clone, Copy, Debug, PartialEq, Eq, Structural)]
pub enum Etat {
    EnJeu,
    Perdu,
}

/// What the player does during one frame.
#[derive(Clone, Copy, Debug, PartialEq, Eq, Structural)]
pub struct Entrees {
    pub commandes: Commandes,
    pub tir: bool,
    pub recommencer: bool,
}

/// A round.
pub struct Partie {
    pub asteroids: Vec<Asteroid>,
    pub missiles: Vec<Missile>,
    pub vaisseau: Spaceship,
    pub bonus: Bonus,
    pub niveau: u32,
}

/// `a` is an asteroid as a round or a new level starts with: of one of the
/// three sizes, unharmed, in the band along an edge, with one of the
/// starting velocities.
pub open spec fn est_asteroide_neuf(ecran: Ecran, a: Asteroid) -> bool {
    &&& 1 <= a.taille <= 3
    &&& a == Asteroid::spec_avec_vitesse(a.taille, a.position, a.speed)
    &&& est_vitesse_de_depart(a.speed)
    &&& est_position_de_bord(ecran, a.position)
}

pub open spec fn sont_neufs(ecran: Ecran, asteroids: Seq<Asteroid>) -> bool {
    forall|i: int| 0 <= i < asteroids.len() ==> est_asteroide_neuf(ecran, #[trigger] asteroids[i])
}

/// Every asteroid one tick later.
pub open spec fn spec_deplaces(asteroids: Seq<Asteroid>, ecran: Ecran) -> Seq<Asteroid> {
    Seq::new(asteroids.len(), |i: int| asteroids[i].spec_deplace(ecran))
}

/// Every missile one tick later.
pub open spec fn spec_avances(missiles: Seq<Missile>) -> Seq<Missile> {
    Seq::new(missiles.len(), |i: int| missiles[i].spec_avance())
}

/// The level after `niveau`.
pub open spec fn spec_niveau_suivant(niveau: u32) -> u32 {
    if niveau < u32::MAX {
        (niveau + 1) as u32
    } else {
        niveau
    }
}

/// Moves every asteroid by its velocity and wraps it at the edges.
pub fn update_model(asteroids: &mut Vec<Asteroid>, ecran: Ecran)
    ensures
        final(asteroids)@ == spec_deplaces(old(asteroids)@, ecran),
{
    let n: usize = asteroids.len();
    let mut i: usize = 0;
    while i < n
        invariant
            i <= n,
            n == asteroids.len(),
            n == old(asteroids).len(),
            forall|j: int| 0 <= j < i ==> asteroids[j] == (#[trigger] old(asteroids)[j]).spec_deplace(ecran),
            forall|j: int| i <= j < n ==> asteroids[j] == old(asteroids)[j],
        decreases n - i,
    {
        let mut asteroid: Asteroid = asteroids[i];
        asteroid.move_object(ecran);
        asteroids.set(i, asteroid);
        i = i + 1;
    }
    assert(asteroids@ =~= spec_deplaces(old(asteroids)@, ecran));
}

/// Moves every missile by its velocity.
pub fn avancer_missiles(missiles: &mut Vec<Missile>)
    ensures
        final(missiles)@ == spec_avances(old(missiles)@),
{
    let n: usize = missiles.len();
    let mut i: usize = 0;
    while i < n
        invariant
            i <= n,
            n == missiles.len(),
            n == old(missiles).len(),
            forall|j: int| 0 <= j < i ==> missiles[j] == (#[trigger] old(missiles)[j]).spec_avance(),
            forall|j: int| i <= j < n ==> missiles[j] == old(missiles)[j],
        decreases n - i,
    {
        let mut missile: Missile = missiles[i];
        missile.maj_pos_missile();
        missiles.set(i, missile);
        i = i + 1;
    }
    assert(missiles@ =~= spec_avances(old(missiles)@));
}

/// `n` new asteroids, each drawn at random.
pub fn flotte(n: u64, ecran: Ecran) -> (asteroids: Vec<Asteroid>)
    requires
        ecran.valide(),
    ensures
        asteroids@.len() == n,
        sont_neufs(ecran, asteroids@),
{
    let mut asteroids: Vec<Asteroid> = Vec::new();
    let mut i: u64 = 0;
    while i < n
        invariant
            i <= n,
            asteroids@.len() == i,
            ecran.valide(),
            sont_neufs(ecran, asteroids@),
        decreases n - i,
    {
        asteroids.push(Asteroid::new(ecran));
        i = i + 1;
    }
    asteroids
}

impl Partie {
    /// The round is lost once the shield is down to nothing.
    pub open spec fn spec_etat(self) -> Etat {
        if self.vaisseau.bouclier == 0 {
            Etat::Perdu
        } else {
            Etat::EnJeu
        }
    }

    /// A round as it starts: eight new asteroids, no missile, a new ship,
    /// level 1.
    pub open spec fn est_depart(self, ecran: Ecran) -> bool {
        &&& self.asteroids@.len() == ASTEROIDES_AU_DEPART
        &&& sont_neufs(ecran, self.asteroids@)
        &&& self.missiles@.len() == 0
        &&& self.vaisseau == Spaceship::spec_new(ecran)
        &&& self.niveau == 1
    }

    /// The ship of a tick after steering and after its collisions with the
    /// asteroids.
    pub open spec fn spec_vaisseau_heurte(self, e: Entrees, temps: u64, ecran: Ecran) -> Spaceship {
        self.vaisseau.spec_pilote(e.commandes, ecran).spec_collisions(
            self.asteroids@,
            temps,
            self.asteroids@.len(),
        ).0
    }

    /// The asteroids of a tick after their collisions with the ship.
    pub open spec fn spec_asteroids_heurtes(self, e: Entrees, temps: u64, ecran: Ecran) -> Seq<
        Asteroid,
    > {
        self.vaisseau.spec_pilote(e.commandes, ecran).spec_collisions(
            self.asteroids@,
            temps,
            self.asteroids@.len(),
        ).1
    }

    /// The missiles of a tick in flight: those there were and, where the
    /// player fires, one more from the ship along its heading, all moved
    /// by one tick.
    pub open spec fn spec_missiles_en_vol(self, e: Entrees, temps: u64, ecran: Ecran) -> Seq<
        Missile,
    > {
        let v = self.spec_vaisseau_heurte(e, temps, ecran);
        spec_avances(
            if e.tir {
                self.missiles@.push(Missile::spec_nouveau(v.position, v.cap))
            } else {
                self.missiles@
            },
        )
    }

    /// What the missiles of a tick leave.
    pub open spec fn spec_bilan(self, e: Entrees, temps: u64, ecran: Ecran) -> Bilan {
        spec_tirs(
            self.spec_asteroids_heurtes(e, temps, ecran),
            self.spec_missiles_en_vol(e, temps, ecran),
            self.spec_missiles_en_vol(e, temps, ecran).len(),
        )
    }

    /// The asteroids that the missiles of a tick leave in play.
    pub open spec fn spec_rescapes(self, e: Entrees, temps: u64, ecran: Ecran) -> Seq<Asteroid> {
        spec_survivants(
            self.spec_bilan(e, temps, ecran).asteroids,
            self.spec_bilan(e, temps, ecran).asteroids.len(),
        )
    }

    /// The missiles of a tick clear the field: no asteroid stays in play
    /// and none leaves a fragment.
    pub open spec fn spec_champ_vide(self, e: Entrees, temps: u64, ecran: Ecran) -> bool {
        self.spec_rescapes(e, temps, ecran).len() + self.spec_bilan(e, temps, ecran).eclats.len()
            == 0
    }

    /// `apres` is what a tick of play makes of `self`, where `t` was drawn
    /// for the bonus and `champ` are the asteroids before they move.
    ///
    /// The ship steers and collides; the bonus runs down or appears, and
    /// fills the shield of a ship that reaches it; the missiles fly and
    /// hit. Where that clears the field the level goes up, new asteroids
    /// fill the field, the ship goes back to the middle and no missile
    /// stays. Otherwise the fragments join the asteroids left in play.
    /// At last every asteroid moves.
    pub open spec fn est_suite_avec(
        self,
        e: Entrees,
        delta_ms: u32,
        temps: u64,
        ecran: Ecran,
        apres: Partie,
        t: Tirages,
        champ: Seq<Asteroid>,
    ) -> bool {
        let v = self.spec_vaisseau_heurte(e, temps, ecran);
        let b = self.bonus.spec_evolue(delta_ms, v.bouclier, t);
        let pris = b.spec_atteint(v.position, RAYON_VAISSEAU);
        let recharge = if pris {
            Spaceship { bouclier: BOUCLIER_MAX, ..v }
        } else {
            v
        };
        &&& tirages_possibles(ecran, v.bouclier, t)
        &&& apres.bonus == b.spec_collecte(v.position, RAYON_VAISSEAU)
        &&& if self.spec_champ_vide(e, temps, ecran) {
            &&& apres.niveau == spec_niveau_suivant(self.niveau)
            &&& champ.len() == ASTEROIDES_DE_BASE + apres.niveau
            &&& sont_neufs(ecran, champ)
            &&& apres.missiles@.len() == 0
            &&& apres.vaisseau == recharge.spec_recentre(ecran)
        } else {
            &&& apres.niveau == self.niveau
            &&& est_avec_fragments(
                self.spec_rescapes(e, temps, ecran),
                self.spec_bilan(e, temps, ecran).eclats,
                champ,
            )
            &&& apres.missiles@ == self.spec_bilan(e, temps, ecran).missiles
            &&& apres.vaisseau == recharge
        }
        &&& apres.asteroids@ == spec_deplaces(champ, ecran)
    }

    /// `apres` is what a tick of play makes of `self`, for some outcome of
    /// what the tick draws at random.
    pub open spec fn est_suite(
        self,
        e: Entrees,
        delta_ms: u32,
        temps: u64,
        ecran: Ecran,
        apres: Partie,
    ) -> bool {
        exists|t: Tirages, champ: Seq<Asteroid>| #[trigger]
            self.est_suite_avec(e, delta_ms, temps, ecran, apres, t, champ)
    }

    /// Starts a round.
    pub fn new(ecran: Ecran) -> (p: Partie)
        requires
            ecran.valide(),
        ensures
            p.est_depart(ecran),
            !p.bonus.visible,
            p.bonus.timer == 0,
            est_position_bonus(ecran, p.bonus.position),
    {
        Partie {
            asteroids: flotte(ASTEROIDES_AU_DEPART, ecran),
            missiles: Vec::new(),
            vaisseau: Spaceship::new(ecran),
            bonus: Bonus::nouveau_bonus(ecran),
            niveau: 1,
        }
    }

    pub fn etat(&self) -> (e: Etat)
        ensures
            e == self.spec_etat(),
    {
        if self.vaisseau.get_bouclier() == 0 {
            Etat::Perdu
        } else {
            Etat::EnJeu
        }
    }

    /// Starts the round over. The bonus stays as it is.
    pub fn recommencer(&mut self, ecran: Ecran)
        requires
            ecran.valide(),
        ensures
            final(self).est_depart(ecran),
            final(self).bonus == old(self).bonus,
    {
        self.asteroids = flotte(ASTEROIDES_AU_DEPART, ecran);
        self.vaisseau = Spaceship::new(ecran);
        self.missiles = Vec::new();
        self.niveau = 1;
    }

    /// Where no asteroid is left: the next level, a field of new
    /// asteroids, the ship back in the middle, and no missile.
    pub fn relever(&mut self, ecran: Ecran)
        requires
            ecran.valide(),
        ensures
            final(self).bonus == old(self).bonus,
            old(self).asteroids@.len() > 0 ==> {
                &&& final(self).asteroids@ == old(self).asteroids@
                &&& final(self).missiles@ == old(self).missiles@
                &&& final(self).vaisseau == old(self).vaisseau
                &&& final(self).niveau == old(self).niveau
            },
            old(self).asteroids@.len() == 0 ==> {
                &&& final(self).niveau == spec_niveau_suivant(old(self).niveau)
                &&& final(self).asteroids@.len() == ASTEROIDES_DE_BASE + final(self).niveau
                &&& sont_neufs(ecran, final(self).asteroids@)
                &&& final(self).missiles@.len() == 0
                &&& final(self).vaisseau == old(self).vaisseau.spec_recentre(ecran)
            },
    {
        if self.asteroids.len() == 0 {
            if self.niveau < u32::MAX {
                self.niveau = self.niveau + 1;
            }
            self.asteroids = flotte(ASTEROIDES_DE_BASE + self.niveau as u64, ecran);
            self.vaisseau.recentrer(ecran);
            self.missiles = Vec::new();
        }
    }

    /// One tick of play at the time `temps`, `delta_ms` after the last.
    pub fn tick(&mut self, entrees: Entrees, delta_ms: u32, temps: u64, ecran: Ecran)
        requires
            ecran.valide(),
        ensures
            old(self).est_suite(entrees, delta_ms, temps, ecran, *final(self)),
            final(self).asteroids@.len() > 0,
            old(self).vaisseau.valide() ==> final(self).vaisseau.valide(),
            old(self).spec_champ_vide(entrees, temps, ecran) ==> {
                &&& final(self).niveau == spec_niveau_suivant(old(self).niveau)
                &&& final(self).asteroids@.len() == ASTEROIDES_DE_BASE + final(self).niveau
                &&& final(self).missiles@.len() == 0
            },
    {
        self.vaisseau.maj_pos(&mut self.asteroids, entrees.commandes, ecran, temps);
        let ghost heurte = self.vaisseau;
        let ghost bonus_avant = self.bonus;
        self.bonus.update_bonus(delta_ms, self.vaisseau.get_bouclier(), ecran);
        let ghost t = choose|t: Tirages| #[trigger]
            tirages_possibles(ecran, heurte.bouclier, t) && self.bonus == bonus_avant.spec_evolue(
                delta_ms,
                heurte.bouclier,
                t,
            );
        if self.bonus.verifier_collision(self.vaisseau.get_position(), RAYON_VAISSEAU) {
            self.vaisseau.restaurer_bouclier();
        }
        if entrees.tir {
            let nv_missile = Missile::nouveau_missile(
                self.vaisseau.get_position(),
                self.vaisseau.get_cap(),
            );
            self.missiles.push(nv_missile);
        }
        avancer_missiles(&mut self.missiles);
        let eclats = resoudre_tirs(&mut self.asteroids, &mut self.missiles);
        retirer_detruits(&mut self.asteroids);
        ajouter_eclats(&mut self.asteroids, &eclats);
        let ghost reste = self.asteroids@;
        self.relever(ecran);
        let ghost champ = self.asteroids@;
        update_model(&mut self.asteroids, ecran);
        proof {
            assert(old(self).est_suite_avec(entrees, delta_ms, temps, ecran, *self, t, champ));
        }
    }

    /// One frame. A round that goes on plays a tick; a lost round waits,
    /// and starts over when the player asks for it.
    pub fn image(&mut self, entrees: Entrees, delta_ms: u32, temps: u64, ecran: Ecran)
        requires
            ecran.valide(),
        ensures
            old(self).spec_etat() == Etat::EnJeu ==> old(self).est_suite(
                entrees,
                delta_ms,
                temps,
                ecran,
                *final(self),
            ),
            old(self).spec_etat() == Etat::Perdu && entrees.recommencer ==> final(self).est_depart(
                ecran,
            ) && final(self).bonus == old(self).bonus,
            old(self).spec_etat() == Etat::Perdu && !entrees.recommencer ==> *final(self) == *old(
                self,
            ),
    {
        match self.etat() {
            Etat::EnJeu => {
                self.tick(entrees, delta_ms, temps, ecran);
            },
            Etat::Perdu => {
                if entrees.recommencer {
                    self.recommencer(ecran);
                }
            },
        }
    }
}

} // verus!
