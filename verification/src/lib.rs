//! Playmill: a deterministic, tick-driven factory simulation.
//!
//! A `World` owns a grid of `Building`s, a `Physics` clock, an append-only
//! `EventLog`, and an `IdGenerator` that issues unique building identifiers.
//! Each call to `World::tick_world` advances the clock by one tick and lets
//! every `Creator` building accumulate resources on its fixed schedule,
//! recording everything that happened in the log.

pub mod building;
pub mod clock;
pub mod display;
pub mod idgen;
pub mod laws;
pub mod log;
pub mod textfmt;
pub mod world;

pub use building::Building;
pub use building::BuildingLabel;
pub use clock::Physics;
pub use display::TerminalDisplay;
pub use idgen::IdGenerator;
pub use log::EventLog;
pub use world::World;
