//! Plutchik's eight primary emotions, their metaphorical spectral
//! frequencies, the rules that turn emotions into voxel-world properties,
//! and the canonical keys of the undirected edges of an emotional graph.

pub mod emotion;
pub mod graph;
pub mod voxel;

pub use emotion::Emotion;
pub use graph::edge_key;
pub use voxel::{EmotionToVoxel, Weather};
