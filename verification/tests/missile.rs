use asteroids::cap::Cap;
use asteroids::missile::Missile;
use asteroids::vecteur::Vecteur;

#[test]
fn test_creation_missile() {
    let missile = Missile::nouveau_missile(Vecteur::unites(10, 20), Cap::depuis_pas(0));
    assert_eq!(missile.get_position(), Vecteur::unites(10, 20));
}

#[test]
fn test_mouvement_missile() {
    let mut missile = Missile::nouveau_missile(Vecteur::unites(0, 0), Cap::depuis_pas(0));
    missile.maj_pos_missile();
    assert_eq!(missile.get_position(), Vecteur::unites(5, 0));
}

#[test]
fn test_direction_missile() {
    let missile = Missile::nouveau_missile(Vecteur::unites(0, 0), Cap::depuis_pas(0));
    assert_eq!(missile.get_position(), Vecteur::unites(0, 0));
    let mut missile_moving = missile;
    missile_moving.maj_pos_missile();
    assert_eq!(missile_moving.get_position(), Vecteur::unites(5, 0));
}

#[test]
fn test_mouvement_apres_plusieurs_frames() {
    let mut missile = Missile::nouveau_missile(Vecteur::unites(0, 0), Cap::depuis_pas(0));
    missile.maj_pos_missile();
    missile.maj_pos_missile();
    assert_eq!(missile.get_position(), Vecteur::unites(10, 0));
}

#[test]
fn vitesse_du_missile_le_long_du_cap() {
    let m = Missile::nouveau_missile(Vecteur::unites(1, 2), Cap::depuis_pas(10));
    assert_eq!(m.vitesse, Vecteur::new(4387, 2397));
    let n = Missile::nouveau_missile(Vecteur::unites(1, 2), Cap::depuis_pas(63));
    assert_eq!(n.vitesse, Vecteur::new(-4999, -42));
}

#[test]
fn le_missile_ne_reboucle_pas_et_garde_sa_vitesse() {
    let mut m = Missile::nouveau_missile(Vecteur::unites(0, 0), Cap::initial().gauche());
    let vitesse = m.vitesse;
    for _ in 0..1000 {
        m.maj_pos_missile();
    }
    assert_eq!(m.vitesse, vitesse);
    assert_eq!(m.get_position(), Vecteur::new(1000 * vitesse.x, 1000 * vitesse.y));
    assert!(m.get_position().y < 0);
}

#[test]
fn le_missile_s_arrete_au_bout_des_coordonnees() {
    let mut m = Missile { position: Vecteur::new(i32::MAX - 3, 0), vitesse: Vecteur::new(5000, 0) };
    m.maj_pos_missile();
    assert_eq!(m.get_position(), Vecteur::new(i32::MAX, 0));
}

#[test]
fn tire_le_long_d_un_cap_le_missile_fait_cinq_par_tick() {
    for pas in 0..126u32 {
        let m = Missile::nouveau_missile(Vecteur::unites(0, 0), Cap::depuis_pas(pas));
        let n = m.vitesse.norme_carree();
        assert!(4997 * 4997 < n && n < 5001 * 5001);
    }
}
