//! The lifecycle of a surface texture: what becomes of the backend's hold on an
//! acquired frame when it is dropped, and how frames compare.

pub mod surface_texture;
