//! Missiles against asteroids. Each missile hits the first asteroid of the
//! list that it reaches, and no other; an asteroid that a missile has
//! destroyed is out of play at once, so that no later missile of the same
//! tick can hit it again.

use crate::asteroid::{
    est_vitesse_de_depart, positions_asteroides_apres_collision, spec_positions_apres_collision,
    spec_rayon, spec_taille_fragments, taille_fragments, Asteroid,
};
use crate::missile::{Missile, PORTEE_MISSILE};
use crate::vecteur::Vecteur;
use vstd::prelude::*;

verus! {

/// The order for one fragment: its size and its place.
#[derive(Clone, Copy, Debug, PartialEq, Eq, Structural)]
pub struct Eclat {
    pub taille: u8,
    pub position: Vecteur,
}

/// What the missiles of one tick leave: the asteroids with their hits
/// taken, the missiles that hit nothing, and the fragments to create.
pub struct Bilan {
    pub asteroids: Seq<Asteroid>,
    pub missiles: Seq<Missile>,
    pub eclats: Seq<Eclat>,
}

/// The missile reaches the asteroid, which is still in play.
pub open spec fn spec_atteint(m: Missile, a: Asteroid) -> bool {
    !a.spec_est_detruit() && m.position.spec_a_portee(
        a.position,
        PORTEE_MISSILE + spec_rayon(a.taille),
    )
}

/// The first of the first `n` asteroids that the missile reaches.
pub open spec fn spec_cible(m: Missile, asteroids: Seq<Asteroid>, n: nat) -> Option<int>
    decreases n,
{
    if n == 0 {
        None
    } else {
        match spec_cible(m, asteroids, (n - 1) as nat) {
            Some(j) => Some(j),
            None => if spec_atteint(m, asteroids[n - 1]) {
                Some(n - 1)
            } else {
                None
            },
        }
    }
}

/// The fragments that an asteroid leaves when a missile at `missile_pos`
/// has destroyed it: two of the next smaller size, or none.
pub open spec fn spec_eclats(missile_pos: Vecteur, a: Asteroid) -> Seq<Eclat> {
    match spec_taille_fragments(a.taille) {
        Some(taille) => {
            let p = spec_positions_apres_collision(missile_pos, a.position);
            seq![Eclat { taille, position: p.0 }, Eclat { taille, position: p.1 }]
        },
        None => Seq::empty(),
    }
}

/// The outcome of one missile on top of the outcome `b` of those before
/// it: it hits its target, which leaves fragments if that destroys it, or
/// it flies on.
pub open spec fn spec_tir(b: Bilan, m: Missile) -> Bilan {
    match spec_cible(m, b.asteroids, b.asteroids.len()) {
        Some(j) => {
            let touche = b.asteroids[j].spec_touche();
            Bilan {
                asteroids: b.asteroids.update(j, touche),
                missiles: b.missiles,
                eclats: if touche.spec_est_detruit() {
                    b.eclats + spec_eclats(m.position, touche)
                } else {
                    b.eclats
                },
            }
        },
        None => Bilan { missiles: b.missiles.push(m), ..b },
    }
}

/// The outcome of the first `n` missiles, taken in the order of the list.
pub open spec fn spec_tirs(asteroids: Seq<Asteroid>, missiles: Seq<Missile>, n: nat) -> Bilan
    decreases n,
{
    if n == 0 {
        Bilan { asteroids, missiles: Seq::empty(), eclats: Seq::empty() }
    } else {
        spec_tir(spec_tirs(asteroids, missiles, (n - 1) as nat), missiles[n - 1])
    }
}

/// Those of the first `n` asteroids that are not destroyed, in order.
pub open spec fn spec_survivants(asteroids: Seq<Asteroid>, n: nat) -> Seq<Asteroid>
    decreases n,
{
    if n == 0 {
        Seq::empty()
    } else if asteroids[n - 1].spec_est_detruit() {
        spec_survivants(asteroids, (n - 1) as nat)
    } else {
        spec_survivants(asteroids, (n - 1) as nat).push(asteroids[n - 1])
    }
}

/// `a` is a fragment made to the order `e`: of that size, at that place,
/// unharmed, with one of the starting velocities.
pub open spec fn est_fragment(e: Eclat, a: Asteroid) -> bool {
    a == Asteroid::spec_avec_vitesse(e.taille, e.position, a.speed) && est_vitesse_de_depart(
        a.speed,
    )
}

/// `apres` is `avant` followed by one fragment for each order, in order.
pub open spec fn est_avec_fragments(
    avant: Seq<Asteroid>,
    eclats: Seq<Eclat>,
    apres: Seq<Asteroid>,
) -> bool {
    &&& apres.len() == avant.len() + eclats.len()
    &&& apres.subrange(0, avant.len() as int) == avant
    &&& forall|i: int| 0 <= i < eclats.len() ==> est_fragment(eclats[i], #[trigger] apres[avant.len() + i])
}

/// The target is the first asteroid that the missile reaches.
pub proof fn lemma_cible(m: Missile, asteroids: Seq<Asteroid>, n: nat)
    requires
        n <= asteroids.len(),
    ensures
        match spec_cible(m, asteroids, n) {
            Some(j) => {
                &&& 0 <= j < n
                &&& spec_atteint(m, asteroids[j])
                &&& forall|k: int| 0 <= k < j ==> !spec_atteint(m, #[trigger] asteroids[k])
            },
            None => forall|k: int| 0 <= k < n ==> !spec_atteint(m, #[trigger] asteroids[k]),
        },
    decreases n,
{
    if n > 0 {
        lemma_cible(m, asteroids, (n - 1) as nat);
    }
}

/// None of the asteroids left in play is destroyed.
pub proof fn lemma_survivants(asteroids: Seq<Asteroid>, n: nat)
    requires
        n <= asteroids.len(),
    ensures
        forall|i: int|
            0 <= i < spec_survivants(asteroids, n).len() ==> !(#[trigger] spec_survivants(
                asteroids,
                n,
            )[i]).spec_est_detruit(),
    decreases n,
{
    if n > 0 {
        lemma_survivants(asteroids, (n - 1) as nat);
        let avant = spec_survivants(asteroids, (n - 1) as nat);
        assert forall|i: int| 0 <= i < spec_survivants(asteroids, n).len() implies !(
        #[trigger] spec_survivants(asteroids, n)[i]).spec_est_detruit() by {
            if i < avant.len() {
                assert(spec_survivants(asteroids, n)[i] == avant[i]);
            }
        }
    }
}

/// Finds the asteroid that a missile hits: the first of the list that it
/// reaches and that is still in play.
pub fn chercher_cible(missile: &Missile, asteroids: &Vec<Asteroid>) -> (cible: Option<usize>)
    ensures
        match cible {
            Some(j) => spec_cible(*missile, asteroids@, asteroids.len() as nat) == Some(j as int),
            None => spec_cible(*missile, asteroids@, asteroids.len() as nat) == None::<int>,
        },
        match cible {
            Some(j) => {
                &&& j < asteroids.len()
                &&& spec_atteint(*missile, asteroids[j as int])
                &&& forall|k: int| 0 <= k < j ==> !spec_atteint(*missile, #[trigger] asteroids[k])
            },
            None => forall|k: int|
                0 <= k < asteroids.len() ==> !spec_atteint(*missile, #[trigger] asteroids[k]),
        },
{
    let n: usize = asteroids.len();
    let mut i: usize = 0;
    while i < n
        invariant
            i <= n,
            n == asteroids.len(),
            spec_cible(*missile, asteroids@, i as nat) == None::<int>,
        decreases n - i,
    {
        let asteroid: Asteroid = asteroids[i];
        let portee: i64 = PORTEE_MISSILE as i64 + asteroid.rayon_asteroid() as i64;
        if !asteroid.est_detruit() && missile.get_position().a_portee(
            asteroid.get_position(),
            portee,
        ) {
            proof {
                assert(spec_cible(*missile, asteroids@, (i + 1) as nat) == Some(i as int));
                lemma_cible_stable(*missile, asteroids@, (i + 1) as nat, n as nat);
                lemma_cible(*missile, asteroids@, n as nat);
            }
            return Some(i);
        }
        i = i + 1;
    }
    proof {
        lemma_cible(*missile, asteroids@, n as nat);
    }
    None
}

/// A target found among the first `n` asteroids stays the target among more.
pub proof fn lemma_cible_stable(m: Missile, asteroids: Seq<Asteroid>, n: nat, plus: nat)
    requires
        n <= plus,
        spec_cible(m, asteroids, n) is Some,
    ensures
        spec_cible(m, asteroids, plus) == spec_cible(m, asteroids, n),
    decreases plus,
{
    if plus > n {
        lemma_cible_stable(m, asteroids, n, (plus - 1) as nat);
    }
}

/// The fragments that a destroyed asteroid leaves.
pub fn eclats_de(missile_pos: Vecteur, asteroid: &Asteroid) -> (eclats: Vec<Eclat>)
    ensures
        eclats@ == spec_eclats(missile_pos, *asteroid),
{
    let mut eclats: Vec<Eclat> = Vec::new();
    match taille_fragments(asteroid.get_taille()) {
        Some(taille) => {
            let (position1, position2) = positions_asteroides_apres_collision(
                missile_pos,
                asteroid.get_position(),
            );
            eclats.push(Eclat { taille, position: position1 });
            eclats.push(Eclat { taille, position: position2 });
            assert(eclats@ =~= spec_eclats(missile_pos, *asteroid));
        },
        None => {
            assert(eclats@ =~= spec_eclats(missile_pos, *asteroid));
        },
    }
    eclats
}

/// Lets every missile hit its target. The asteroids take their hits and
/// stay in the list, destroyed or not; the missiles that hit are taken
/// out of theirs; the result orders the fragments.
pub fn resoudre_tirs(asteroids: &mut Vec<Asteroid>, missiles: &mut Vec<Missile>) -> (eclats: Vec<
    Eclat,
>)
    ensures
        final(asteroids).len() == old(asteroids).len(),
        (Bilan { asteroids: final(asteroids)@, missiles: final(missiles)@, eclats: eclats@ })
            == spec_tirs(old(asteroids)@, old(missiles)@, old(missiles).len() as nat),
{
    let mut eclats: Vec<Eclat> = Vec::new();
    let mut restants: Vec<Missile> = Vec::new();
    let n: usize = missiles.len();
    let mut i: usize = 0;
    while i < n
        invariant
            i <= n,
            n == missiles.len(),
            missiles@ == old(missiles)@,
            asteroids.len() == old(asteroids).len(),
            (Bilan { asteroids: asteroids@, missiles: restants@, eclats: eclats@ }) == spec_tirs(
                old(asteroids)@,
                old(missiles)@,
                i as nat,
            ),
        decreases n - i,
    {
        let missile: Missile = missiles[i];
        match chercher_cible(&missile, asteroids) {
            Some(j) => {
                let mut asteroid: Asteroid = asteroids[j];
                asteroid.diminuer_resistance();
                asteroids.set(j, asteroid);
                if asteroid.est_detruit() {
                    let mut nouveaux = eclats_de(missile.get_position(), &asteroid);
                    eclats.append(&mut nouveaux);
                }
            },
            None => {
                restants.push(missile);
            },
        }
        i = i + 1;
    }
    *missiles = restants;
    eclats
}

/// Takes the destroyed asteroids out of the list.
pub fn retirer_detruits(asteroids: &mut Vec<Asteroid>)
    ensures
        final(asteroids)@ == spec_survivants(old(asteroids)@, old(asteroids).len() as nat),
{
    let mut gardes: Vec<Asteroid> = Vec::new();
    let n: usize = asteroids.len();
    let mut i: usize = 0;
    while i < n
        invariant
            i <= n,
            n == asteroids.len(),
            asteroids@ == old(asteroids)@,
            gardes@ == spec_survivants(old(asteroids)@, i as nat),
        decreases n - i,
    {
        let asteroid: Asteroid = asteroids[i];
        if !asteroid.est_detruit() {
            gardes.push(asteroid);
        }
        i = i + 1;
    }
    *asteroids = gardes;
}

/// Creates the fragments that were ordered, each with a heading drawn at
/// random, and puts them at the end of the list.
pub fn ajouter_eclats(asteroids: &mut Vec<Asteroid>, eclats: &Vec<Eclat>)
    ensures
        est_avec_fragments(old(asteroids)@, eclats@, final(asteroids)@),
{
    let n: usize = eclats.len();
    let mut i: usize = 0;
    proof {
        assert(asteroids@.subrange(0, asteroids@.len() as int) =~= asteroids@);
    }
    while i < n
        invariant
            i <= n,
            n == eclats.len(),
            est_avec_fragments(old(asteroids)@, eclats@.subrange(0, i as int), asteroids@),
        decreases n - i,
    {
        let eclat: Eclat = eclats[i];
        let ghost avant = asteroids@;
        asteroids.push(Asteroid::nouvel_asteroid(eclat.taille, eclat.position));
        proof {
            let depart = old(asteroids)@;
            let apres = asteroids@;
            assert(apres.subrange(0, depart.len() as int) =~= avant.subrange(0, depart.len() as int));
            assert forall|k: int| 0 <= k < i + 1 implies est_fragment(
                eclats@.subrange(0, i + 1)[k],
                #[trigger] apres[depart.len() + k],
            ) by {
                if k < i {
                    assert(apres[depart.len() + k] == avant[depart.len() + k]);
                    assert(eclats@.subrange(0, i + 1)[k] == eclats@.subrange(0, i as int)[k]);
                }
            }
        }
        i = i + 1;
    }
    proof {
        assert(eclats@.subrange(0, n as int) =~= eclats@);
    }
}

} // verus!
