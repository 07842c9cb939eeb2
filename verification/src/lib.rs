//! Core of a combat-sport sensing system: decoding of wearable-sensor
//! frames, threshold classification of strikes, physics estimation,
//! per-competitor record tracking, and the bookkeeping that supervises
//! device connections.  All quantities are carried in integer fixed-point
//! units (milli- and micro- scales), so every computation here is exact
//! and fully verified.

pub mod detection;
pub mod errors;
pub mod math;
pub mod radio;
pub mod registry;
pub mod scan;
pub mod stats;
pub mod strutil;
pub mod supervisor;
pub mod system;
pub mod types;
