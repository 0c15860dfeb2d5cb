use asteroids::asteroid::Asteroid;
use asteroids::cap::Cap;
use asteroids::ecran::Ecran;
use asteroids::spaceship::{cout_bouclier, Commandes, Spaceship};
use asteroids::vecteur::Vecteur;

fn ecran() -> Ecran {
    Ecran::unites(800, 600)
}

fn repos() -> Commandes {
    Commandes { gauche: false, droite: false, haut: false, bas: false }
}

fn asteroid(taille: u8, x: i32, y: i32, vitesse: Vecteur) -> Asteroid {
    Asteroid::avec_vitesse(taille, Vecteur::unites(x, y), vitesse)
}

#[test]
fn test_creation_vaisseau() {
    let vaisseau = Spaceship::new(ecran());
    assert_eq!(vaisseau.bouclier, 100);
    assert_eq!(vaisseau.position.x, Vecteur::unites(400, 300).x);
    assert_eq!(vaisseau.position.y, Vecteur::unites(400, 300).y);
}

#[test]
fn test_restaurer_bouclier() {
    let mut vaisseau = Spaceship::new(ecran());
    vaisseau.bouclier = 50;
    vaisseau.restaurer_bouclier();
    assert_eq!(vaisseau.bouclier, 100);
}

#[test]
fn test_recentrer_vaisseau() {
    let mut vaisseau = Spaceship::new(ecran());
    vaisseau.position.x = Vecteur::unites(100, 100).x;
    vaisseau.position.y = Vecteur::unites(100, 100).y;
    vaisseau.vitesse.x = Vecteur::unites(1, 1).x;
    vaisseau.vitesse.y = Vecteur::unites(1, 1).y;
    vaisseau.recentrer(ecran());
    assert_eq!(vaisseau.position.x, Vecteur::unites(400, 300).x);
    assert_eq!(vaisseau.position.y, Vecteur::unites(400, 300).y);
    assert_eq!(vaisseau.vitesse.x, 0);
    assert_eq!(vaisseau.vitesse.y, 0);
}

#[test]
fn vaisseau_neuf() {
    let v = Spaceship::new(ecran());
    assert_eq!(v.get_position(), Vecteur::new(400_000, 300_000));
    assert_eq!(v.vitesse, Vecteur::new(0, 0));
    assert_eq!(v.get_rotation(), 0);
    assert_eq!(v.get_cap(), Cap::initial());
    assert_eq!(v.get_bouclier(), 100);
    assert_eq!(v.cooldown, 0);
}

#[test]
fn recentrer_garde_bouclier_cap_et_delai() {
    let mut v = Spaceship::new(ecran());
    v.bouclier = 40;
    v.cooldown = 777;
    v.rotation = 3;
    v.cap = Cap::depuis_pas(3);
    v.position = Vecteur::unites(1, 2);
    v.vitesse = Vecteur::new(5, 6);
    v.recentrer(ecran());
    assert_eq!(v.position, Vecteur::unites(400, 300));
    assert_eq!(v.vitesse, Vecteur::new(0, 0));
    assert_eq!(v.bouclier, 40);
    assert_eq!(v.cooldown, 777);
    assert_eq!(v.rotation, 3);
    assert_eq!(v.cap, Cap::depuis_pas(3));
}

#[test]
fn restaurer_bouclier_donne_toujours_cent() {
    for depart in [0u8, 1, 29, 75, 100] {
        let mut v = Spaceship::new(ecran());
        v.bouclier = depart;
        v.restaurer_bouclier();
        assert_eq!(v.get_bouclier(), 100);
    }
}

#[test]
fn piloter_pousse_freine_et_avance() {
    let mut v = Spaceship::new(ecran());
    v.piloter(Commandes { haut: true, ..repos() }, ecran());
    assert_eq!(v.vitesse, Vecteur::new(194, 0));
    assert_eq!(v.position, Vecteur::new(400_194, 300_000));
    v.piloter(repos(), ecran());
    assert_eq!(v.vitesse, Vecteur::new(188, 0));
    assert_eq!(v.position, Vecteur::new(400_382, 300_000));
    v.piloter(Commandes { bas: true, ..repos() }, ecran());
    assert_eq!(v.vitesse, Vecteur::new(-11, 0));
    assert_eq!(v.position, Vecteur::new(400_371, 300_000));
}

#[test]
fn piloter_tourne_d_un_pas() {
    let mut v = Spaceship::new(ecran());
    v.piloter(Commandes { droite: true, ..repos() }, ecran());
    assert_eq!(v.get_rotation(), 1);
    assert_eq!(v.get_cap(), Cap::depuis_pas(1));
    v.piloter(Commandes { gauche: true, ..repos() }, ecran());
    v.piloter(Commandes { gauche: true, ..repos() }, ecran());
    assert_eq!(v.get_rotation(), -1);
    assert_eq!(v.get_cap(), Cap::initial().gauche());
    v.piloter(Commandes { gauche: true, droite: true, ..repos() }, ecran());
    assert_eq!(v.get_rotation(), -1);
    assert_eq!(v.position, Vecteur::new(400_000, 300_000));
}

#[test]
fn piloter_pousse_le_long_du_cap_apres_avoir_tourne() {
    let mut v = Spaceship::new(ecran());
    v.rotation = 30;
    v.cap = Cap::depuis_pas(30);
    v.piloter(Commandes { droite: true, haut: true, ..repos() }, ecran());
    assert_eq!(v.get_rotation(), 31);
    assert_eq!(v.vitesse, Cap::depuis_pas(31).vecteur(200).fraction(97, 100));
    assert_eq!(v.vitesse, Vecteur::new(3, 193));
}

#[test]
fn piloter_reboucle_au_bord() {
    let mut v = Spaceship::new(ecran());
    v.position = Vecteur::new(799_900, 100);
    v.vitesse = Vecteur::new(1000, -1000);
    v.piloter(repos(), ecran());
    assert_eq!(v.vitesse, Vecteur::new(970, -970));
    assert_eq!(v.position, Vecteur::new(870, 600_870));
}

#[test]
fn cout_par_taille() {
    assert_eq!(cout_bouclier(1), 10);
    assert_eq!(cout_bouclier(2), 15);
    assert_eq!(cout_bouclier(3), 25);
    assert_eq!(cout_bouclier(4), 0);
}

#[test]
fn collision_avec_un_grand_laisse_75() {
    let mut v = Spaceship::new(ecran());
    let mut a = asteroid(3, 450, 300, Vecteur::new(1000, 0));
    v.heurter(&mut a, 1000);
    assert_eq!(v.get_bouclier(), 75);
    assert_eq!(v.cooldown, 1000);
    assert_eq!(v.position, Vecteur::new(345_000, 300_000));
    assert_eq!(a.speed, Vecteur::new(-1000, 0));
    assert_eq!(a.position, Vecteur::unites(450, 300));
    assert_eq!(a.get_resistance(), 5);
}

#[test]
fn collision_avec_un_petit_laisse_90() {
    let mut v = Spaceship::new(ecran());
    let mut a = asteroid(1, 400, 320, Vecteur::new(0, -1000));
    v.heurter(&mut a, 501);
    assert_eq!(v.get_bouclier(), 90);
    assert_eq!(v.position, Vecteur::new(400_000, 275_000));
    assert_eq!(a.speed, Vecteur::new(0, 1000));
}

#[test]
fn collision_avec_un_moyen_laisse_85() {
    let mut v = Spaceship::new(ecran());
    let mut a = asteroid(2, 400, 320, Vecteur::new(0, -1000));
    v.heurter(&mut a, 9000);
    assert_eq!(v.get_bouclier(), 85);
}

#[test]
fn le_bouclier_ne_descend_pas_sous_zero() {
    let mut v = Spaceship::new(ecran());
    v.bouclier = 20;
    let mut a = asteroid(3, 450, 300, Vecteur::new(1000, 0));
    v.heurter(&mut a, 1000);
    assert_eq!(v.get_bouclier(), 0);
    let mut temps = 1000;
    for _ in 0..20 {
        temps += 600;
        v.position = Vecteur::unites(400, 300);
        v.heurter(&mut a, temps);
        assert_eq!(v.get_bouclier(), 0);
    }
}

#[test]
fn deux_collisions_rapprochees_ne_coutent_qu_une_fois() {
    let mut v = Spaceship::new(ecran());
    let mut a = asteroid(3, 450, 300, Vecteur::new(1000, 0));
    v.heurter(&mut a, 1000);
    assert_eq!(v.get_bouclier(), 75);
    v.position = Vecteur::unites(400, 300);
    v.heurter(&mut a, 1500);
    assert_eq!(v.get_bouclier(), 75);
    assert_eq!(v.cooldown, 1000);
    v.position = Vecteur::unites(400, 300);
    v.heurter(&mut a, 1501);
    assert_eq!(v.get_bouclier(), 50);
    assert_eq!(v.cooldown, 1501);
}

#[test]
fn pas_de_cout_dans_la_premiere_demi_seconde() {
    let mut v = Spaceship::new(ecran());
    let mut a = asteroid(3, 450, 300, Vecteur::new(1000, 0));
    v.heurter(&mut a, 500);
    assert_eq!(v.get_bouclier(), 100);
    assert_eq!(v.cooldown, 0);
    assert_eq!(v.position, Vecteur::new(345_000, 300_000));
}

#[test]
fn sans_contact_seule_la_friction_agit() {
    let mut v = Spaceship::new(ecran());
    let mut a = asteroid(3, 505, 300, Vecteur::new(1000, 0));
    a.speed = Vecteur::new(2000, 0);
    let avant = v;
    v.heurter(&mut a, 1000);
    assert_eq!(v, avant);
    assert_eq!(a.speed, Vecteur::new(1960, 0));
    let mut b = asteroid(3, 504, 300, Vecteur::new(1000, 0));
    v.heurter(&mut b, 1000);
    assert_eq!(v.get_bouclier(), 75);
}

#[test]
fn un_vaisseau_rapide_chasse_l_asteroide() {
    let mut v = Spaceship::new(ecran());
    v.vitesse = Vecteur::new(3000, 4000);
    let mut a = asteroid(1, 400, 330, Vecteur::new(1000, 0));
    v.heurter(&mut a, 1000);
    assert_eq!(a.speed, Vecteur::new(0, 5880));
    assert_eq!(a.speed_min, Vecteur::new(1000, 0));
    assert_eq!(v.vitesse, Vecteur::new(1500, 2000));
    assert_eq!(v.position, Vecteur::new(400_000, 285_000));
}

#[test]
fn un_vaisseau_lent_ne_chasse_pas_l_asteroide() {
    let mut v = Spaceship::new(ecran());
    v.vitesse = Vecteur::new(100, 0);
    let mut a = asteroid(1, 400, 330, Vecteur::new(1000, 0));
    v.heurter(&mut a, 1000);
    assert_eq!(a.speed, Vecteur::new(1000, 0));
    assert_eq!(v.vitesse, Vecteur::new(50, 0));
}

#[test]
fn centres_confondus_ni_poussee_ni_rebond() {
    let mut v = Spaceship::new(ecran());
    let mut a = asteroid(2, 400, 300, Vecteur::new(600, 800));
    v.heurter(&mut a, 1000);
    assert_eq!(v.position, Vecteur::unites(400, 300));
    assert_eq!(a.speed, Vecteur::new(600, 800));
    assert_eq!(v.get_bouclier(), 85);
}

#[test]
fn maj_pos_pilote_puis_heurte_chaque_asteroide() {
    let mut v = Spaceship::new(ecran());
    let mut asteroids = vec![
        asteroid(3, 450, 300, Vecteur::new(1000, 0)),
        asteroid(1, 100, 100, Vecteur::new(0, 1000)),
        asteroid(1, 345, 320, Vecteur::new(0, -1000)),
    ];
    asteroids[1].speed = Vecteur::new(0, 2000);
    v.maj_pos(&mut asteroids, repos(), ecran(), 1000);
    assert_eq!(asteroids.len(), 3);
    assert_eq!(v.get_bouclier(), 75);
    assert_eq!(v.cooldown, 1000);
    assert_eq!(asteroids[0].speed, Vecteur::new(-1000, 0));
    assert_eq!(asteroids[1].speed, Vecteur::new(0, 1960));
    assert_eq!(asteroids[2].speed, Vecteur::new(0, 1000));
    assert_eq!(v.position, Vecteur::new(345_000, 275_000));
}

#[test]
fn le_vaisseau_pousse_touche_juste_l_asteroide() {
    for (taille, x, y) in [(3u8, 450, 300), (1, 400, 330), (2, 437, 341), (3, 338, 250), (1, 399, 299)] {
        let mut v = Spaceship::new(ecran());
        let mut a = asteroid(taille, x, y, Vecteur::new(1000, 0));
        let portee = 15_000 + a.rayon_asteroid() as i64;
        assert!(v.position.a_portee(a.position, portee));
        v.heurter(&mut a, 1000);
        assert!(!v.position.a_portee(a.position, portee - 4));
        assert!(v.position.a_portee(a.position, portee + 2));
    }
}

#[test]
fn piloter_garde_un_cap_de_pleine_longueur() {
    let mut v = Spaceship::new(ecran());
    for image in 0..5_000u32 {
        v.piloter(
            Commandes { gauche: image % 5 == 0, droite: image % 2 == 0, haut: true, bas: false },
            ecran(),
        );
        assert!(v.get_cap().est_unitaire());
    }
}
