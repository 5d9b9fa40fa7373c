//! Weapon configuration and vehicle collision rules of a top-down vehicle
//! combat game, with their contracts proved by Verus.
//!
//! Every real-valued quantity of the game (speeds, damage, cooldowns,
//! percentages, sizes, positions) is held here as a whole number of
//! thousandths of the game's unit, so that `400_000` stands for `400.0`.
//! All the quantities that the weapon tables fix are exact multiples of a
//! thousandth.

pub mod components;
pub mod systems;
