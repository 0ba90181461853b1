//! Verified integer logic of a two-dimensional SPH fluid simulator: the lattice on
//! which particles are laid out, the byte layout of the buffers handed to a
//! renderer, and the compute dispatch that covers the density field.
pub mod buffer;
pub mod dispatch;
pub mod grid;
