//! Verified rules of a procedural exploration game: collision layers, stable
//! identifiers, the region graph and its crossings, the village's herding
//! walk, terrain chunk streaming, meaningful places, omens, the
//! presentation tour and the wording of the HUD.

pub mod physics;
pub mod places;
pub mod player;
pub mod presentation;
pub mod regions;
pub mod signs;
pub mod streaming;
pub mod ui;
pub mod village;
pub mod world;
