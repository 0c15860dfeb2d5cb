//! The simulation core of an asteroid shooter: asteroids that break up, a
//! ship with a shield, missiles, a shield bonus, and the round that holds
//! them together.
//!
//! Everything is computed on integers. A length counts thousandths of a
//! unit (0.001), a time counts milliseconds, and a heading turns in steps
//! of 0.05 radian. What a function rounds, it rounds toward zero, and its
//! contract says so.

pub mod calcul;
pub mod vecteur;
pub mod mesures;
pub mod ecran;
pub mod cap;
pub mod hasard;
pub mod asteroid;
pub mod missile;
pub mod spaceship;
pub mod bonus;
pub mod stellarobject;
pub mod tirs;
pub mod partie;
pub mod lois;
