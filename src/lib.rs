//! A small texture compositor core: quad geometry, texture coordinates,
//! render-target bindings and draw-call planning for a GPU context that the
//! host drives.
pub mod rect;
pub mod vertex;
pub mod texture;
pub mod renderer;
pub mod laws;
