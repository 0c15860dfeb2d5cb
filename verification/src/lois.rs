//! What holds of the rules of the game, whatever the round.

use crate::asteroid::{
    est_vitesse_de_depart, spec_positions_apres_collision, spec_rayon,
    spec_resistance_initiale, Asteroid, ECART_FRAGMENTS,
};
use crate::bonus::{Bonus, Tirages};
use crate::cap::{Cap, PAS_PAR_TOUR};
use crate::mesures::{
    lemma_cap_vecteur, lemma_coordonnees_bornees, lemma_depuis_pas, lemma_repousse, lemma_tourne,
    lemma_vers_longueur,
};
use crate::ecran::Ecran;
use crate::missile::{Missile, VITESSE_MISSILE};
use crate::partie::{
    est_asteroide_neuf, spec_niveau_suivant, Entrees, Partie, ASTEROIDES_DE_BASE,
};
use crate::spaceship::{
    spec_cout_bouclier, spec_delai_ecoule, Commandes, Spaceship, DELAI_BOUCLIER, RAYON_VAISSEAU,
};
use crate::tirs::{
    est_fragment, lemma_cible, lemma_survivants, spec_atteint, spec_cible, spec_eclats, spec_tir,
    Bilan,
};
use crate::vecteur::{Vecteur, UNITE};
use vstd::math::abs;
use vstd::prelude::*;

verus! {

/// An asteroid of size 1, 2 or 3 withstands 1, 3 or 5 hits and has a
/// radius of 30, 60 or 90 units.
pub proof fn loi_tailles(taille: u8)
    requires
        1 <= taille <= 3,
    ensures
        spec_resistance_initiale(taille) == 2 * taille - 1,
        spec_rayon(taille) == taille * 30 * UNITE,
{
}

/// Hits take the resistance down one by one and stop at none; they change
/// nothing else. So an asteroid that withstands `n` hits is destroyed by
/// `n` hits and by no fewer.
pub proof fn loi_impacts(a: Asteroid, n: nat)
    ensures
        a.spec_touche_fois(n) == (Asteroid {
            resistance: if n <= a.resistance {
                (a.resistance - n) as u8
            } else {
                0
            },
            ..a
        }),
        a.spec_touche_fois(n).spec_est_detruit() <==> n >= a.resistance,
    decreases n,
{
    if n > 0 {
        loi_impacts(a, (n - 1) as nat);
    }
}

/// A destroyed large asteroid leaves two medium fragments, a medium one
/// two small ones, a small one none.
pub proof fn loi_nombre_fragments(missile_pos: Vecteur, a: Asteroid)
    requires
        1 <= a.taille <= 3,
    ensures
        spec_eclats(missile_pos, a).len() == (if a.taille == 1 {
            0int
        } else {
            2int
        }),
        forall|i: int|
            0 <= i < spec_eclats(missile_pos, a).len() ==> (#[trigger] spec_eclats(
                missile_pos,
                a,
            )[i]).taille == a.taille - 1,
{
}

/// Nothing in the placing of the fragments is held at the end of the
/// range of a coordinate: neither the line of fire, nor the line across
/// it, nor either of the two places.
pub open spec fn fragments_sans_butee(missile_pos: Vecteur, asteroid_pos: Vecteur) -> bool {
    let ecart = asteroid_pos.spec_moins(missile_pos).spec_perpendiculaire().spec_vers_longueur(
        ECART_FRAGMENTS as int,
    );
    &&& i32::MIN <= asteroid_pos.x - missile_pos.x <= i32::MAX
    &&& i32::MIN < asteroid_pos.y - missile_pos.y <= i32::MAX
    &&& i32::MIN <= asteroid_pos.x + ecart.x <= i32::MAX
    &&& i32::MIN <= asteroid_pos.x - ecart.x <= i32::MAX
    &&& i32::MIN <= asteroid_pos.y + ecart.y <= i32::MAX
    &&& i32::MIN <= asteroid_pos.y - ecart.y <= i32::MAX
}

/// The two fragments of a destroyed asteroid appear at different places,
/// opposite each other across its centre. Each lies `ECART_FRAGMENTS`
/// from the centre, to within three steps of a coordinate below and one
/// above, so that the two lie twice as far from each other; and the line
/// from the centre to each is at right angles to the line of fire, to the
/// rounding of a coordinate. This holds wherever the missile is not at
/// the centre itself and no coordinate is held at the end of its range.
pub proof fn loi_fragments(missile_pos: Vecteur, asteroid_pos: Vecteur)
    requires
        missile_pos != asteroid_pos,
        fragments_sans_butee(missile_pos, asteroid_pos),
    ensures
        ({
            let p = spec_positions_apres_collision(missile_pos, asteroid_pos);
            let tir = asteroid_pos.spec_moins(missile_pos);
            let ecart = p.0.spec_moins(asteroid_pos);
            &&& p.0 != p.1
            &&& p.0.x + p.1.x == 2 * asteroid_pos.x
            &&& p.0.y + p.1.y == 2 * asteroid_pos.y
            &&& p.1.spec_moins(asteroid_pos).x == -ecart.x
            &&& p.1.spec_moins(asteroid_pos).y == -ecart.y
            &&& ecart.spec_long_de(ECART_FRAGMENTS as int)
            &&& asteroid_pos.spec_distance_carree(p.0) == ecart.spec_norme_carree()
            &&& asteroid_pos.spec_distance_carree(p.1) == ecart.spec_norme_carree()
            &&& p.0.spec_distance_carree(p.1) == 4 * ecart.spec_norme_carree()
            &&& -(abs(tir.x as int) + abs(tir.y as int)) <= ecart.spec_scalaire(tir) <= abs(
                tir.x as int,
            ) + abs(tir.y as int)
        }),
{
    let tir = asteroid_pos.spec_moins(missile_pos);
    let travers = tir.spec_perpendiculaire();
    let e = travers.spec_vers_longueur(ECART_FRAGMENTS as int);
    assert(tir.x == asteroid_pos.x - missile_pos.x && tir.y == asteroid_pos.y - missile_pos.y);
    assert(travers.x == -tir.y && travers.y == tir.x);
    lemma_vers_longueur(travers, ECART_FRAGMENTS as int);
    let n = e.spec_norme_carree();
    let p = spec_positions_apres_collision(missile_pos, asteroid_pos);
    assert(p.0.x == asteroid_pos.x + e.x && p.0.y == asteroid_pos.y + e.y);
    assert(p.1.x == asteroid_pos.x - e.x && p.1.y == asteroid_pos.y - e.y);
    assert(p.0.spec_moins(asteroid_pos) == e);
    assert(p.1.spec_moins(asteroid_pos).x == -e.x);
    assert(p.1.spec_moins(asteroid_pos).y == -e.y);
    assert(asteroid_pos.spec_distance_carree(p.0) == n) by (nonlinear_arith)
        requires
            asteroid_pos.spec_distance_carree(p.0) == (asteroid_pos.x - p.0.x) * (asteroid_pos.x
                - p.0.x) + (asteroid_pos.y - p.0.y) * (asteroid_pos.y - p.0.y),
            asteroid_pos.x - p.0.x == -e.x,
            asteroid_pos.y - p.0.y == -e.y,
            n == e.x * e.x + e.y * e.y,
    ;
    assert(asteroid_pos.spec_distance_carree(p.1) == n) by (nonlinear_arith)
        requires
            asteroid_pos.spec_distance_carree(p.1) == (asteroid_pos.x - p.1.x) * (asteroid_pos.x
                - p.1.x) + (asteroid_pos.y - p.1.y) * (asteroid_pos.y - p.1.y),
            asteroid_pos.x - p.1.x == e.x,
            asteroid_pos.y - p.1.y == e.y,
            n == e.x * e.x + e.y * e.y,
    ;
    assert(p.0.spec_distance_carree(p.1) == 4 * n) by (nonlinear_arith)
        requires
            p.0.spec_distance_carree(p.1) == (p.0.x - p.1.x) * (p.0.x - p.1.x) + (p.0.y - p.1.y) * (
            p.0.y - p.1.y),
            p.0.x - p.1.x == 2 * e.x,
            p.0.y - p.1.y == 2 * e.y,
            n == e.x * e.x + e.y * e.y,
    ;
    assert(n > 0);
    assert(e.spec_scalaire(tir) == e.x * travers.y - e.y * travers.x) by (nonlinear_arith)
        requires
            e.spec_scalaire(tir) == e.x * tir.x + e.y * tir.y,
            travers.y == tir.x,
            travers.x == -tir.y,
    ;
    assert(abs(travers.x as int) + abs(travers.y as int) == abs(tir.x as int) + abs(tir.y as int));
    assert(e.x != 0 || e.y != 0) by (nonlinear_arith)
        requires
            n == e.x * e.x + e.y * e.y,
            n > 0,
    ;
    assert(p.0 != p.1);
}

/// Where every coordinate of the missile and of the asteroid lies within
/// a quarter of the range of a coordinate, nothing in the placing of the
/// fragments is held at the end of that range.
pub proof fn loi_fragments_au_large(missile_pos: Vecteur, asteroid_pos: Vecteur)
    requires
        missile_pos != asteroid_pos,
        -0x2000_0000 <= missile_pos.x <= 0x2000_0000,
        -0x2000_0000 <= missile_pos.y <= 0x2000_0000,
        -0x2000_0000 <= asteroid_pos.x <= 0x2000_0000,
        -0x2000_0000 <= asteroid_pos.y <= 0x2000_0000,
    ensures
        fragments_sans_butee(missile_pos, asteroid_pos),
{
    let travers = asteroid_pos.spec_moins(missile_pos).spec_perpendiculaire();
    let e = travers.spec_vers_longueur(ECART_FRAGMENTS as int);
    lemma_vers_longueur(travers, ECART_FRAGMENTS as int);
    lemma_coordonnees_bornees(e.x as int, e.y as int, ECART_FRAGMENTS as int);
}

/// A missile changes one asteroid at most: the first of the list that it
/// reaches, which takes one hit. A missile that hits is gone, one that
/// reaches nothing flies on and changes nothing.
pub proof fn loi_premier_atteint(b: Bilan, m: Missile)
    ensures
        spec_tir(b, m).asteroids.len() == b.asteroids.len(),
        match spec_cible(m, b.asteroids, b.asteroids.len()) {
            Some(j) => {
                &&& 0 <= j < b.asteroids.len()
                &&& spec_atteint(m, b.asteroids[j])
                &&& forall|k: int| 0 <= k < j ==> !spec_atteint(m, #[trigger] b.asteroids[k])
                &&& spec_tir(b, m).asteroids[j] == b.asteroids[j].spec_touche()
                &&& forall|k: int|
                    0 <= k < b.asteroids.len() && k != j ==> #[trigger] spec_tir(b, m).asteroids[k]
                        == b.asteroids[k]
                &&& spec_tir(b, m).missiles == b.missiles
            },
            None => {
                &&& forall|k: int|
                    0 <= k < b.asteroids.len() ==> !spec_atteint(m, #[trigger] b.asteroids[k])
                &&& spec_tir(b, m).asteroids == b.asteroids
                &&& spec_tir(b, m).eclats == b.eclats
                &&& spec_tir(b, m).missiles == b.missiles.push(m)
            },
        },
{
    lemma_cible(m, b.asteroids, b.asteroids.len());
}

/// A heading of full length that turns one step, either way, has full
/// length.
pub proof fn loi_cap_tourne(c: Cap, sens: int)
    requires
        c.unitaire(),
        sens == 1 || sens == -1,
    ensures
        c.spec_tourne(sens).unitaire(),
{
    lemma_tourne(c, sens);
}

/// The heading of every angle that is counted in steps has full length.
pub proof fn loi_cap_depuis_pas(n: nat)
    ensures
        Cap::spec_depuis_pas(n).unitaire(),
{
    lemma_depuis_pas(n);
}

/// The vector of length `l` along a heading of full length is `l` long,
/// to within three steps of a coordinate below and one above.
pub proof fn loi_cap_vecteur(c: Cap, l: int)
    requires
        c.unitaire(),
        6 <= l <= 0x10_0000,
    ensures
        c.spec_vecteur(l).spec_long_de(l),
{
    lemma_cap_vecteur(c, l);
}

/// Every velocity that an asteroid can start with is one unit long.
pub proof fn loi_vitesse_de_depart(v: Vecteur)
    requires
        est_vitesse_de_depart(v),
    ensures
        v.spec_long_de(UNITE as int),
{
    let pas = choose|pas: nat|
        pas < PAS_PAR_TOUR && v == (#[trigger] Cap::spec_depuis_pas(pas)).spec_vecteur(UNITE as int);
    lemma_depuis_pas(pas);
    lemma_cap_vecteur(Cap::spec_depuis_pas(pas), UNITE as int);
}

/// A missile fired along a heading of full length covers `VITESSE_MISSILE`
/// in every tick of its flight.
pub proof fn loi_vitesse_tir(position: Vecteur, direction: Cap, n: nat)
    requires
        direction.unitaire(),
    ensures
        Missile::spec_nouveau(position, direction).spec_avance_fois(n).vitesse.spec_long_de(
            VITESSE_MISSILE as int,
        ),
{
    lemma_cap_vecteur(direction, VITESSE_MISSILE as int);
    loi_vitesse_missile(Missile::spec_nouveau(position, direction), n);
}

/// Steering leaves the shield as it is and keeps the heading at its full
/// length.
pub proof fn loi_pilote(s: Spaceship, c: Commandes, ecran: Ecran)
    requires
        s.valide(),
    ensures
        s.spec_pilote(c, ecran).valide(),
        s.spec_pilote(c, ecran).bouclier == s.bouclier,
        s.spec_pilote(c, ecran).cooldown == s.cooldown,
{
    lemma_tourne(s.cap, -1);
    if c.gauche {
        lemma_tourne(s.cap.spec_tourne(-1), 1);
    } else {
        lemma_tourne(s.cap, 1);
    }
}

/// A missile never changes its velocity.
pub proof fn loi_vitesse_missile(m: Missile, n: nat)
    ensures
        m.spec_avance_fois(n).vitesse == m.vitesse,
    decreases n,
{
    if n > 0 {
        loi_vitesse_missile(m, (n - 1) as nat);
    }
}

/// A collision costs the shield the price of the asteroid's size or what
/// is left of it, and only where ship and asteroid overlap and the delay
/// has passed; otherwise it costs nothing. It never adds shield.
pub proof fn loi_bouclier(s: Spaceship, a: Asteroid, temps: u64)
    ensures
        s.spec_rencontre(a, temps).0.bouclier == (if s.spec_touche(a) && spec_delai_ecoule(
            s.cooldown,
            temps,
        ) {
            if s.bouclier >= spec_cout_bouclier(a.taille) {
                (s.bouclier - spec_cout_bouclier(a.taille)) as u8
            } else {
                0u8
            }
        } else {
            s.bouclier
        }),
        s.spec_rencontre(a, temps).0.bouclier <= s.bouclier,
        s.valide() ==> s.spec_rencontre(a, temps).0.valide(),
{
}

/// Nothing in pushing the ship back out of an asteroid is held at the end
/// of the range of a coordinate: neither the line from the ship to the
/// asteroid nor the place the ship is pushed to.
pub open spec fn repousse_sans_butee(s: Spaceship, a: Asteroid) -> bool {
    let correction = a.position.spec_moins(s.position).spec_vers_longueur(
        RAYON_VAISSEAU + spec_rayon(a.taille) - s.position.spec_distance(a.position),
    );
    &&& i32::MIN <= a.position.x - s.position.x <= i32::MAX
    &&& i32::MIN <= a.position.y - s.position.y <= i32::MAX
    &&& i32::MIN <= s.position.x - correction.x <= i32::MAX
    &&& i32::MIN <= s.position.y - correction.y <= i32::MAX
}

/// A ship that ran into an asteroid is pushed back to where the two just
/// touch: its centre then lies as far from the asteroid's as the two
/// radii reach, no more than four steps of a coordinate nearer and less
/// than two further. This holds where the ship was at least six steps
/// inside, not at the asteroid's centre itself, and no coordinate is held
/// at the end of its range.
pub proof fn loi_repousse(s: Spaceship, a: Asteroid, temps: u64)
    requires
        s.spec_touche(a),
        s.position != a.position,
        6 <= RAYON_VAISSEAU + spec_rayon(a.taille) - s.position.spec_distance(a.position),
        repousse_sans_butee(s, a),
    ensures
        ({
            let portee = RAYON_VAISSEAU + spec_rayon(a.taille);
            (portee - 4) * (portee - 4) <= s.spec_rencontre(
                a,
                temps,
            ).0.position.spec_distance_carree(a.position) < (portee + 2) * (portee + 2)
        }),
{
    lemma_repousse(s.position, a.position, RAYON_VAISSEAU + spec_rayon(a.taille));
}

/// However many asteroids the ship runs into during a tick, its shield
/// does not grow, and the asteroids stay as many as they were.
pub proof fn loi_bouclier_collisions(s: Spaceship, asteroids: Seq<Asteroid>, temps: u64, n: nat)
    requires
        n <= asteroids.len(),
    ensures
        s.spec_collisions(asteroids, temps, n).0.bouclier <= s.bouclier,
        s.spec_collisions(asteroids, temps, n).1.len() == asteroids.len(),
        s.valide() ==> s.spec_collisions(asteroids, temps, n).0.valide(),
    decreases n,
{
    if n > 0 {
        loi_bouclier_collisions(s, asteroids, temps, (n - 1) as nat);
        let avant = s.spec_collisions(asteroids, temps, (n - 1) as nat);
        loi_bouclier(avant.0, avant.1[n - 1], temps);
    }
}

/// Of two collisions no more than the delay apart, the first of which
/// cost shield, the second costs none.
pub proof fn loi_delai(s: Spaceship, a1: Asteroid, t1: u64, a2: Asteroid, t2: u64)
    requires
        s.spec_touche(a1),
        spec_delai_ecoule(s.cooldown, t1),
        t2 - t1 <= DELAI_BOUCLIER,
    ensures
        s.spec_rencontre(a1, t1).0.spec_rencontre(a2, t2).0.bouclier == s.spec_rencontre(
            a1,
            t1,
        ).0.bouclier,
{
}

/// A visible bonus only runs down: nothing that is drawn moves it or sets
/// its time again. An invisible bonus cannot be picked up.
pub proof fn loi_bonus(
    b: Bonus,
    delta_ms: u32,
    bouclier: u8,
    t: Tirages,
    position_vaisseau: Vecteur,
    rayon_vaisseau: i32,
)
    ensures
        b.visible ==> b.spec_evolue(delta_ms, bouclier, t) == b.spec_ecoule(delta_ms),
        b.visible ==> b.spec_evolue(delta_ms, bouclier, t).position == b.position,
        b.visible ==> b.spec_evolue(delta_ms, bouclier, t).timer <= b.timer,
        !b.visible ==> !b.spec_atteint(position_vaisseau, rayon_vaisseau),
        !b.visible ==> b.spec_collecte(position_vaisseau, rayon_vaisseau) == b,
{
}

/// After a tick that cleared the field, the level is one higher, the
/// asteroids are four more than the new level, and no missile is left.
pub proof fn loi_releve(
    avant: Partie,
    e: Entrees,
    delta_ms: u32,
    temps: u64,
    ecran: Ecran,
    apres: Partie,
)
    requires
        avant.est_suite(e, delta_ms, temps, ecran, apres),
        avant.spec_champ_vide(e, temps, ecran),
    ensures
        apres.niveau == spec_niveau_suivant(avant.niveau),
        apres.asteroids@.len() == ASTEROIDES_DE_BASE + apres.niveau,
        apres.missiles@.len() == 0,
{
}

/// After a tick that did not clear the field, the level is what it was.
pub proof fn loi_niveau(
    avant: Partie,
    e: Entrees,
    delta_ms: u32,
    temps: u64,
    ecran: Ecran,
    apres: Partie,
)
    requires
        avant.est_suite(e, delta_ms, temps, ecran, apres),
        !avant.spec_champ_vide(e, temps, ecran),
    ensures
        apres.niveau == avant.niveau,
        apres.asteroids@.len() > 0,
{
}

/// After a tick no asteroid in play is destroyed, and a shield that was
/// not above a full one is not above it either.
pub proof fn loi_champ_vivant(
    avant: Partie,
    e: Entrees,
    delta_ms: u32,
    temps: u64,
    ecran: Ecran,
    apres: Partie,
)
    requires
        avant.est_suite(e, delta_ms, temps, ecran, apres),
        avant.vaisseau.valide(),
    ensures
        forall|i: int|
            0 <= i < apres.asteroids@.len() ==> !(#[trigger] apres.asteroids@[i]).spec_est_detruit(),
        apres.vaisseau.valide(),
{
    let (t, champ) = choose|t: Tirages, champ: Seq<Asteroid>| #[trigger]
        avant.est_suite_avec(e, delta_ms, temps, ecran, apres, t, champ);
    loi_pilote(avant.vaisseau, e.commandes, ecran);
    loi_bouclier_collisions(
        avant.vaisseau.spec_pilote(e.commandes, ecran),
        avant.asteroids@,
        temps,
        avant.asteroids@.len(),
    );
    let bilan = avant.spec_bilan(e, temps, ecran);
    let rescapes = avant.spec_rescapes(e, temps, ecran);
    lemma_survivants(bilan.asteroids, bilan.asteroids.len());
    assert forall|i: int| 0 <= i < champ.len() implies !(#[trigger] champ[i]).spec_est_detruit() by {
        if avant.spec_champ_vide(e, temps, ecran) {
            assert(est_asteroide_neuf(ecran, champ[i]));
        } else if i < rescapes.len() {
            assert(champ[i] == champ.subrange(0, rescapes.len() as int)[i]);
        } else {
            assert(est_fragment(bilan.eclats[i - rescapes.len()], champ[rescapes.len() + (i - rescapes.len())]));
        }
    }
    assert forall|i: int| 0 <= i < apres.asteroids@.len() implies !(
    #[trigger] apres.asteroids@[i]).spec_est_detruit() by {
        assert(apres.asteroids@[i] == champ[i].spec_deplace(ecran));
    }
}

} // verus!
