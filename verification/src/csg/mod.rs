//! Bookkeeping of the constructive-solid-geometry pipeline: how polygons are
//! classified against planes and cut, and how polygons become triangles.

pub mod split;
pub mod texgen;
pub mod topology;
