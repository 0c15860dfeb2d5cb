use asteroids::bonus::{Bonus, Tirages};
use asteroids::ecran::Ecran;
use asteroids::vecteur::Vecteur;

fn ecran() -> Ecran {
    Ecran::unites(800, 600)
}

fn cache() -> Bonus {
    Bonus { position: Vecteur::unites(100, 100), visible: false, timer: 0 }
}

fn tirages(declencheur: i32, chance: i32, duree: i32) -> Tirages {
    Tirages { declencheur, chance, position: Vecteur::unites(200, 250), duree }
}

fn dans_la_marge(p: Vecteur) -> bool {
    (50_000..=750_000).contains(&p.x) && (50_000..=550_000).contains(&p.y)
}

#[test]
fn nouveau_bonus_invisible_dans_la_marge() {
    let premier = Bonus::nouveau_bonus(ecran());
    let mut ailleurs = false;
    for _ in 0..100 {
        let b = Bonus::nouveau_bonus(ecran());
        assert!(!b.visible);
        assert_eq!(b.timer, 0);
        assert!(dans_la_marge(b.position));
        if b.position != premier.position {
            ailleurs = true;
        }
    }
    assert!(ailleurs);
}

#[test]
fn un_bonus_visible_s_ecoule_puis_disparait() {
    let mut b = Bonus { position: Vecteur::unites(100, 100), visible: true, timer: 40 };
    b.evoluer(16, 100, tirages(0, 0, 7000));
    assert_eq!(b, Bonus { position: Vecteur::unites(100, 100), visible: true, timer: 24 });
    b.evoluer(16, 100, tirages(0, 0, 7000));
    assert_eq!(b, Bonus { position: Vecteur::unites(100, 100), visible: true, timer: 8 });
    b.evoluer(16, 100, tirages(0, 0, 7000));
    assert_eq!(b, Bonus { position: Vecteur::unites(100, 100), visible: false, timer: -8 });
}

#[test]
fn un_bonus_visible_disparait_a_zero_pile() {
    let mut b = Bonus { position: Vecteur::unites(100, 100), visible: true, timer: 16 };
    b.evoluer(16, 5, tirages(0, 0, 12_000));
    assert!(!b.visible);
    assert_eq!(b.timer, 0);
}

#[test]
fn le_bonus_apparait_quand_les_deux_tirages_le_permettent() {
    let mut b = cache();
    b.evoluer(16, 100, tirages(79, 0, 7000));
    assert_eq!(b, Bonus { position: Vecteur::unites(200, 250), visible: true, timer: 7000 });
}

#[test]
fn le_premier_tirage_doit_etre_sous_cinq_fois_le_temps_ecoule() {
    let mut b = cache();
    b.evoluer(16, 100, tirages(80, 0, 7000));
    assert_eq!(b, cache());
    b.evoluer(0, 100, tirages(0, 0, 7000));
    assert_eq!(b, cache());
    b.evoluer(17, 100, tirages(80, 0, 7000));
    assert!(b.visible);
}

#[test]
fn une_chance_sur_dix_avec_un_bouclier_fort() {
    let mut b = cache();
    b.evoluer(16, 30, tirages(0, 1, 7000));
    assert_eq!(b, cache());
    b.evoluer(16, 30, tirages(0, 0, 7000));
    assert!(b.visible);
}

#[test]
fn deux_chances_sur_dix_avec_un_bouclier_faible() {
    let mut b = cache();
    b.evoluer(16, 29, tirages(0, 2, 12_000));
    assert_eq!(b, cache());
    b.evoluer(16, 29, tirages(0, 1, 12_000));
    assert_eq!(b, Bonus { position: Vecteur::unites(200, 250), visible: true, timer: 12_000 });
}

#[test]
fn le_bonus_se_ramasse_a_portee() {
    let mut b = Bonus { position: Vecteur::unites(100, 100), visible: true, timer: 5000 };
    assert!(!b.verifier_collision(Vecteur::unites(130, 100), 15_000));
    assert!(b.visible);
    assert!(b.verifier_collision(Vecteur::new(129_999, 100_000), 15_000));
    assert_eq!(b, Bonus { position: Vecteur::unites(100, 100), visible: false, timer: 5000 });
}

#[test]
fn un_bonus_invisible_ne_se_ramasse_pas() {
    let mut b = cache();
    assert!(!b.verifier_collision(Vecteur::unites(100, 100), 15_000));
    assert_eq!(b, cache());
}

#[test]
fn update_bonus_ne_fait_reapparaitre_qu_un_bonus_invisible() {
    let mut b = cache();
    let mut apparitions = 0;
    for _ in 0..200_000 {
        let avant = b;
        b.update_bonus(16, 10, ecran());
        if avant.visible {
            assert_eq!(b.position, avant.position);
            assert_eq!(b.timer, avant.timer - 16);
            assert_eq!(b.visible, b.timer > 0);
        } else if b.visible {
            apparitions += 1;
            assert!(dans_la_marge(b.position));
            assert!((10_000..=15_000).contains(&b.timer));
        } else {
            assert_eq!(b, avant);
        }
    }
    assert!(apparitions > 0);
}

#[test]
fn update_bonus_dure_moins_avec_un_bouclier_fort() {
    let mut b = cache();
    let mut apparitions = 0;
    for _ in 0..400_000 {
        let avant = b;
        b.update_bonus(16, 100, ecran());
        if !avant.visible && b.visible {
            apparitions += 1;
            assert!((5_000..=10_000).contains(&b.timer));
        }
    }
    assert!(apparitions > 0);
}

#[test]
fn ecouler_retire_le_temps_ecoule() {
    let mut b = Bonus { position: Vecteur::unites(1, 2), visible: true, timer: 5000 };
    b.ecouler(16);
    assert_eq!(b, Bonus { position: Vecteur::unites(1, 2), visible: true, timer: 4984 });
    b.ecouler(4984);
    assert_eq!(b, Bonus { position: Vecteur::unites(1, 2), visible: false, timer: 0 });
    let mut c = Bonus { position: Vecteur::unites(1, 2), visible: true, timer: i32::MIN + 5 };
    c.ecouler(u32::MAX);
    assert_eq!(c.timer, i32::MIN);
    assert!(!c.visible);
}
