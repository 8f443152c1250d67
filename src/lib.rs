//! Procedural limb animation and box-collision physics for a stick-figure
//! action game, on fixed-point coordinates.

pub mod geom;
pub mod anim;
pub mod physics;
pub mod game;
