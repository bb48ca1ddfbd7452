//! Core logic for a small Pong game: entity placement, rotation-aware
//! sizing, a center-offset overlap test, and the per-frame state update.
//!
//! All coordinates, velocities and box extents are measured in half-units:
//! one half-unit is half of one screen unit. Storing doubled values keeps
//! the halved bounding-box extents exact in integer arithmetic.

pub mod entity;
pub mod game;
