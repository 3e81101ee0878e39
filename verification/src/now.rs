//! The live monitor: what its panel shows and where.

pub mod deck;
pub mod geometry;
pub mod history;
pub mod labels;
pub mod laws;
pub mod panel;
pub mod render;
pub mod screen;
pub mod style;
pub mod wave;
