//! The two sources of chance. Nothing is known of a draw but the range it
//! falls in, so every function that draws states what holds of any outcome.

use rand::Rng;
use vstd::prelude::*;

verus! {

/// Calls `gen_range` of `rand::Rng` on `rand::thread_rng()` with the
/// inclusive range `bas..=haut`. Believed of it: the number drawn lies in
/// that range. `rand` panics on an empty range, which `requires` leaves out.
#[verifier::external_body]
pub(crate) fn tirage_inclus(bas: i32, haut: i32) -> (r: i32)
    requires
        bas <= haut,
    ensures
        bas <= r <= haut,
{
    rand::thread_rng().gen_range(bas..=haut)
}

/// Calls `macroquad::rand::gen_range(bas, haut)`, which computes
/// `bas + (haut - bas) * t` for a `t` in `[0, 1)` and drops the fraction.
/// Believed of it: the number drawn lies between the two bounds, whichever
/// of them is the larger, both ends included.
#[verifier::external_body]
pub(crate) fn tirage_plage(bas: i32, haut: i32) -> (r: i32)
    ensures
        bas <= haut ==> bas <= r <= haut,
        haut <= bas ==> haut <= r <= bas,
{
    macroquad::rand::gen_range(bas, haut)
}

} // verus!
