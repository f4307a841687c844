//! Deterministic tick simulation for a four-player, grid-based arena game:
//! fixed-point geometry, a seeded xorshift generator, a packed tile map with
//! a procedural mirror generator, and the per-tick physics for players and
//! bullets, together with the serial-link register models at the hardware
//! boundary.

pub mod bullet;
pub mod fixed;
pub mod generation;
pub mod map;
pub mod player;
pub mod rng;
pub mod serial_gpio;
pub mod serial_multiplayer;
pub mod tick;
pub mod tiles;
