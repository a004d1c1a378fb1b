//! The grid-based particle simulation: a pyramid of density grids at four
//! levels of detail, filled by scattering particles and downsampling.

pub mod lod_grids;
pub mod particle_simulation;
