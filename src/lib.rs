//! Core of an orbital sandbox: a tiered orbit scheduler over a registry of
//! celestial bodies, a bounding-volume index kept in step with them, a
//! selection and camera controller with an eased retargeting transition, and
//! a fixed-timestep accumulator. All quantities are fixed-point integers.
pub mod geometry;
pub mod spatial;
pub mod orbit;
pub mod system;
pub mod laws;
pub mod ease;
pub mod camera;
pub mod timestep;
pub mod button;
pub mod scenes;
pub mod mesh;
