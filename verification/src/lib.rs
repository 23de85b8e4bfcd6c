//! Terrain rendering from a grid of height samples: every height is put into
//! a biome band, darkened where the ground falls away from its western
//! neighbour, and written into an RGBA buffer. A small controller edits the
//! noise parameters and records when the buffer has to be rebuilt.

pub mod biome;
pub mod controller;
pub mod shading;
pub mod terrain;
