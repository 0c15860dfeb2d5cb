use asteroids::asteroid::{
    position_bord, positions_asteroides_apres_collision, resistance_initiale, taille_fragments,
    Asteroid, ASTEROID_INIT_SIZE,
};
use asteroids::ecran::Ecran;
use asteroids::vecteur::Vecteur;

fn asteroid(taille: u8, resistance: u8, vitesse: Vecteur) -> Asteroid {
    Asteroid {
        position: Vecteur::unites(0, 0),
        speed: vitesse,
        speed_min: vitesse,
        taille,
        resistance,
    }
}

#[test]
fn test_creation_asteroid() {
    let asteroid = Asteroid {
        position: Vecteur::unites(0, 0),
        speed: Vecteur::unites(1, 1),
        speed_min: Vecteur::unites(1, 1),
        taille: 2,
        resistance: 3,
    };
    assert!(asteroid.get_taille() >= 1 && asteroid.get_taille() <= 3);
    assert!(asteroid.get_resistance() > 0);
}

#[test]
fn test_diminuer_resistance() {
    let mut asteroid = Asteroid {
        position: Vecteur::unites(0, 0),
        speed: Vecteur::unites(1, 1),
        speed_min: Vecteur::unites(1, 1),
        taille: 2,
        resistance: 3,
    };
    let initial_resistance = asteroid.get_resistance();
    asteroid.diminuer_resistance();
    assert_eq!(asteroid.get_resistance(), initial_resistance - 1);
}

#[test]
fn test_est_detruit() {
    let mut asteroid = Asteroid {
        position: Vecteur::unites(0, 0),
        speed: Vecteur::unites(0, 0),
        speed_min: Vecteur::unites(0, 0),
        taille: 1,
        resistance: 1,
    };
    asteroid.diminuer_resistance();
    assert!(asteroid.est_detruit());
}

#[test]
fn resistance_et_rayon_par_taille() {
    assert_eq!(resistance_initiale(1), 1);
    assert_eq!(resistance_initiale(2), 3);
    assert_eq!(resistance_initiale(3), 5);
    assert_eq!(asteroid(1, 1, Vecteur::new(0, 0)).rayon_asteroid(), 30_000);
    assert_eq!(asteroid(2, 3, Vecteur::new(0, 0)).rayon_asteroid(), 60_000);
    assert_eq!(asteroid(3, 5, Vecteur::new(0, 0)).rayon_asteroid(), 90_000);
}

#[test]
fn taille_inconnue_compte_comme_moyenne_et_resiste_une_fois() {
    assert_eq!(resistance_initiale(0), 1);
    assert_eq!(resistance_initiale(9), 1);
    assert_eq!(asteroid(7, 1, Vecteur::new(0, 0)).rayon_asteroid(), ASTEROID_INIT_SIZE);
}

#[test]
fn avec_vitesse_donne_la_resistance_de_la_taille() {
    let a = Asteroid::avec_vitesse(3, Vecteur::unites(10, 20), Vecteur::new(600, -800));
    assert_eq!(a.get_position(), Vecteur::new(10_000, 20_000));
    assert_eq!(a.speed, Vecteur::new(600, -800));
    assert_eq!(a.speed_min, Vecteur::new(600, -800));
    assert_eq!(a.get_taille(), 3);
    assert_eq!(a.get_resistance(), 5);
}

#[test]
fn n_impacts_detruisent_un_asteroide_de_resistance_n() {
    for taille in 1..=3u8 {
        let mut a = Asteroid::avec_vitesse(taille, Vecteur::unites(0, 0), Vecteur::new(1000, 0));
        let n = a.get_resistance();
        for _ in 0..n - 1 {
            a.diminuer_resistance();
        }
        assert!(!a.est_detruit());
        a.diminuer_resistance();
        assert!(a.est_detruit());
    }
}

#[test]
fn la_resistance_ne_descend_pas_sous_zero() {
    let mut a = asteroid(1, 1, Vecteur::new(0, 0));
    a.diminuer_resistance();
    a.diminuer_resistance();
    a.diminuer_resistance();
    assert_eq!(a.get_resistance(), 0);
    assert_eq!(a.get_taille(), 1);
}

#[test]
fn move_object_avance_puis_reboucle() {
    let ecran = Ecran::unites(800, 600);
    let mut a = Asteroid::avec_vitesse(1, Vecteur::unites(10, 10), Vecteur::new(1000, -500));
    assert_eq!(a.move_object(ecran), Vecteur::new(11_000, 9_500));
    let mut b = Asteroid::avec_vitesse(1, Vecteur::unites(0, 600), Vecteur::new(-5000, 5000));
    assert_eq!(b.move_object(ecran), Vecteur::new(805_000, 5_000));
    assert_eq!(b.move_object(ecran), Vecteur::new(800_000, 10_000));
    assert_eq!(b.speed, Vecteur::new(-5000, 5000));
}

#[test]
fn rebondir_renvoie_la_vitesse() {
    let mut a = asteroid(2, 3, Vecteur::new(1000, 0));
    a.rebondir(Vecteur::new(1000, 0));
    assert_eq!(a.speed, Vecteur::new(-1000, 0));
    let mut b = asteroid(2, 3, Vecteur::new(300, -400));
    b.rebondir(Vecteur::new(0, 5));
    assert_eq!(b.speed, Vecteur::new(300, 400));
    let mut c = asteroid(2, 3, Vecteur::new(700, 200));
    c.rebondir(Vecteur::new(30_000, 40_000));
    assert_eq!(c.speed, Vecteur::new(4, -728));
    assert_eq!(c.speed_min, Vecteur::new(700, 200));
}

#[test]
fn rebondir_sans_direction_ne_change_rien() {
    let mut a = asteroid(2, 3, Vecteur::new(123, -456));
    a.rebondir(Vecteur::new(0, 0));
    assert_eq!(a, asteroid(2, 3, Vecteur::new(123, -456)));
}

#[test]
fn la_friction_ne_touche_que_l_asteroide_plus_rapide_qu_au_depart() {
    let mut a = asteroid(2, 3, Vecteur::new(1000, 0));
    a.appliquer_resistance();
    assert_eq!(a.speed, Vecteur::new(1000, 0));
    a.nouvelle_vitesse(Vecteur::new(1500, -1500));
    a.appliquer_resistance();
    assert_eq!(a.speed, Vecteur::new(1470, -1470));
    assert_eq!(a.speed_min, Vecteur::new(1000, 0));
}

#[test]
fn la_friction_peut_passer_sous_la_vitesse_de_depart() {
    let mut a = asteroid(2, 3, Vecteur::new(1000, 0));
    a.nouvelle_vitesse(Vecteur::new(1001, 0));
    a.appliquer_resistance();
    assert_eq!(a.speed, Vecteur::new(980, 0));
    a.appliquer_resistance();
    assert_eq!(a.speed, Vecteur::new(980, 0));
}

#[test]
fn fragments_par_taille() {
    assert_eq!(taille_fragments(3), Some(2));
    assert_eq!(taille_fragments(2), Some(1));
    assert_eq!(taille_fragments(1), None);
    assert_eq!(taille_fragments(0), None);
}

#[test]
fn positions_des_fragments_de_part_et_d_autre() {
    let (p1, p2) =
        positions_asteroides_apres_collision(Vecteur::unites(0, 0), Vecteur::unites(100, 0));
    assert_eq!(p1, Vecteur::new(100_000, 50_000));
    assert_eq!(p2, Vecteur::new(100_000, -50_000));
    let (q1, q2) =
        positions_asteroides_apres_collision(Vecteur::new(4000, 12_000), Vecteur::new(10_000, 20_000));
    assert_eq!(q1, Vecteur::new(-30_000, 50_000));
    assert_eq!(q2, Vecteur::new(50_000, -10_000));
    assert_ne!(q1, q2);
}

#[test]
fn fragments_confondus_quand_le_missile_est_au_centre() {
    let (p1, p2) =
        positions_asteroides_apres_collision(Vecteur::unites(7, 7), Vecteur::unites(7, 7));
    assert_eq!(p1, Vecteur::unites(7, 7));
    assert_eq!(p2, Vecteur::unites(7, 7));
}

#[test]
fn position_bord_par_cote() {
    let ecran = Ecran::unites(800, 600);
    assert_eq!(position_bord(ecran, 40_000, 1, 123_000), Vecteur::new(123_000, 40_000));
    assert_eq!(position_bord(ecran, 40_000, 2, 123_000), Vecteur::new(760_000, 123_000));
    assert_eq!(position_bord(ecran, 40_000, 3, 123_000), Vecteur::new(123_000, 560_000));
    assert_eq!(position_bord(ecran, 40_000, 4, 123_000), Vecteur::new(40_000, 123_000));
}

fn pres_d_un_bord(ecran: Ecran, p: Vecteur) -> bool {
    let bande = |d: i32| (30_000..=60_000).contains(&d);
    let dans_x = (0..=ecran.largeur).contains(&p.x);
    let dans_y = (0..=ecran.hauteur).contains(&p.y);
    (bande(p.y) && dans_x)
        || (bande(ecran.hauteur - p.y) && dans_x)
        || (bande(p.x) && dans_y)
        || (bande(ecran.largeur - p.x) && dans_y)
}

#[test]
fn new_tire_taille_bord_et_vitesse_unitaire() {
    let ecran = Ecran::unites(800, 600);
    let mut tailles = [0usize; 4];
    let mut vitesses_differentes = false;
    let premier = Asteroid::new(ecran);
    for _ in 0..300 {
        let a = Asteroid::new(ecran);
        assert!((1..=3).contains(&a.get_taille()));
        tailles[a.get_taille() as usize] += 1;
        assert_eq!(a.get_resistance(), resistance_initiale(a.get_taille()));
        assert_eq!(a.speed, a.speed_min);
        assert!(pres_d_un_bord(ecran, a.get_position()));
        let v = (a.speed.x as f64).hypot(a.speed.y as f64);
        assert!(v > 998.0 && v <= 1000.0);
        if a.speed != premier.speed {
            vitesses_differentes = true;
        }
    }
    assert!(tailles[1] > 0 && tailles[2] > 0 && tailles[3] > 0);
    assert!(vitesses_differentes);
}

#[test]
fn nouvel_asteroid_garde_taille_et_position() {
    let a = Asteroid::nouvel_asteroid(2, Vecteur::unites(33, 44));
    assert_eq!(a.get_taille(), 2);
    assert_eq!(a.get_resistance(), 3);
    assert_eq!(a.get_position(), Vecteur::new(33_000, 44_000));
    assert_eq!(a.speed, a.speed_min);
    let v = (a.speed.x as f64).hypot(a.speed.y as f64);
    assert!(v > 998.0 && v <= 1000.0);
}
