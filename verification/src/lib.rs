//! Physics and spatial-query core of a 2D platformer with radial gravity.
//!
//! The library holds the fixed-point numeric substrate, the geometric
//! primitives (circle, line segment, circular arc), the collider union, the
//! ahead-of-time spatial compiler that builds a grid of bounded candidate
//! lists, the runtime terrain queries, the moving-platform path engine and
//! the player physics integrator.

pub mod collider;
pub mod compile;
pub mod fixed;
pub mod geom;
pub mod laws;
pub mod level;
pub mod lower;
pub mod map_data;
pub mod paths;
pub mod player;
pub mod raster;
pub mod spiral;
pub mod vec2;
