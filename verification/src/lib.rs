//! A seeded grid of jittered square outlines, laid out in fixed-point units.

pub mod layout;
pub mod noise;
pub mod render;
pub mod settings;
pub mod theorems;
