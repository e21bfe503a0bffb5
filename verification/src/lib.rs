//! Verified core of a small 3D scene: the double-buffered ocean height grid,
//! the menu hitbox tables and the settings they drive, the camera view history,
//! the click and visibility decisions, and the index and byte bookkeeping behind
//! the ocean's wireframe mesh and the stitched roundel texture.

pub mod history;
pub mod input;
pub mod laws;
pub mod menu;
pub mod mipmaps;
pub mod ocean_grid;
pub mod settings;
pub mod tables;
pub mod visibility;
pub mod wireframe;
pub mod click_laws;
pub mod table_laws;
pub mod data_laws;
