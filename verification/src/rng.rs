//! The random number generator of the `fastrand` crate, as the game logic uses it.
use vstd::prelude::*;

verus! {

/// The generator type of `fastrand`.
#[verifier::external_type_specification]
#[verifier::external_body]
pub struct ExRng(fastrand::Rng);

/// Calls `fastrand::Rng::u8` with the range `low..=high`. The crate's source returns a
/// value of that range (and panics on an empty range, which `requires` rules out); which
/// value comes back, and the generator's next state, are left unsaid.
#[verifier::external_body]
pub(crate) fn rng_u8_inclusive(rng: &mut fastrand::Rng, low: u8, high: u8) -> (r: u8)
    requires
        low <= high,
    ensures
        low <= r <= high,
{
    rng.u8(low..=high)
}

/// Calls `fastrand::Rng::usize` with the range `low..high`. The crate's source returns a
/// value of that range (and panics on an empty range, which `requires` rules out); which
/// value comes back, and the generator's next state, are left unsaid.
#[verifier::external_body]
pub(crate) fn rng_usize(rng: &mut fastrand::Rng, low: usize, high: usize) -> (r: usize)
    requires
        low < high,
    ensures
        low <= r < high,
{
    rng.usize(low..high)
}

/// Calls `fastrand::Rng::u64` with the range `low..high`. The crate's source returns a
/// value of that range (and panics on an empty range, which `requires` rules out); which
/// value comes back, and the generator's next state, are left unsaid.
#[verifier::external_body]
pub(crate) fn rng_u64(rng: &mut fastrand::Rng, low: u64, high: u64) -> (r: u64)
    requires
        low < high,
    ensures
        low <= r < high,
{
    rng.u64(low..high)
}

/// Calls `fastrand::Rng::choice` on the items of `items`. The crate's source returns `None`
/// for no items and otherwise the item at an index drawn in `0..len`; which one, and the
/// generator's next state, are left unsaid.
#[verifier::external_body]
pub(crate) fn rng_choice<T: Copy>(rng: &mut fastrand::Rng, items: &[T]) -> (r: Option<T>)
    ensures
        r is Some <==> items.len() > 0,
        r matches Some(x) ==> items@.contains(x),
{
    rng.choice(items.iter()).copied()
}

/// Calls `fastrand::Rng::i32` with the range `low..high`. The crate's source returns a
/// value of that range (and panics on an empty range, which `requires` rules out); which
/// value comes back, and the generator's next state, are left unsaid.
#[verifier::external_body]
pub(crate) fn rng_i32(rng: &mut fastrand::Rng, low: i32, high: i32) -> (r: i32)
    requires
        low < high,
    ensures
        low <= r < high,
{
    rng.i32(low..high)
}

/// Calls `fastrand::Rng::bool`. Either value may come back; nothing is said of it or of the
/// generator's next state.
#[verifier::external_body]
pub(crate) fn rng_bool(rng: &mut fastrand::Rng) -> bool {
    rng.bool()
}

/// What `fastrand::Rng::usize(low..high)` gives from a generator whose state is `state`,
/// on a machine whose `usize` has `bits` bits (the crate draws through `u32` on 16- and
/// 32-bit machines and through `u64` on 64-bit ones).
pub uninterp spec fn usize_draw(bits: u32, state: u64, low: usize, high: usize) -> usize;

/// The state of that generator after that draw.
pub uninterp spec fn usize_draw_next(bits: u32, state: u64, low: usize, high: usize) -> u64;

/// Calls `fastrand::Rng::with_seed(state)` (a generator whose whole state is `state`), then
/// `usize(low..high)` on it, then `get_seed` for the state it was left in. The crate's
/// source draws a value of the range (and panics on an empty range, which `requires` rules
/// out) as a fixed function of the state, the range and the width `bits` of `usize`, which
/// the caller gives as `usize::BITS`. Which value that is, is named and not stated.
#[verifier::external_body]
pub(crate) fn seeded_usize(bits: u32, state: u64, low: usize, high: usize) -> (r: (usize, u64))
    requires
        bits == usize::BITS,
        low < high,
    ensures
        low <= r.0 < high,
        r.0 == usize_draw(bits, state, low, high),
        r.1 == usize_draw_next(bits, state, low, high),
{
    let mut rng = fastrand::Rng::with_seed(state);
    let value = rng.usize(low..high);
    (value, rng.get_seed())
}

} // verus!
