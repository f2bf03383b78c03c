//! A small simulation library for a color-cycling, random-walk demo.
//!
//! The library models a window-clearing color that cycles through the hue
//! circle, a world of entities that hold a position and a velocity, and the
//! three per-tick transforms over that world: assigning a fresh random
//! velocity to every entity, integrating velocity into position, and laying
//! out the sprite blits for a frame. Coordinates are held in subpixel units
//! (a fixed-point encoding) so that every transform is exact integer
//! arithmetic.

pub mod color;
pub mod state;
pub mod systems;
pub mod text;
pub mod world;
