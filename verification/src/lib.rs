//! A verified model of a spinning-cube animation demo.
//!
//! A field of cubes orbits a common center while each cube spins about its
//! own axis; every frame is drawn twice, once directly and once vertically
//! mirrored as a translucent floor reflection.  This crate holds the part of
//! that demo that can be stated and proved exactly: the per-cube animation
//! parameters and their invariants, the per-frame pose arithmetic, the
//! render-pass composition, the frame-loop state machine, the cube mesh, and
//! the shader build outcome.  All quantities are held as integers in fixed
//! decimal scales (micro units for lengths and seconds, rational turns for
//! angles); turning them into floating-point matrices and GPU calls is left
//! to an unverified front end.

pub mod angle;
pub mod cube;
pub mod geometry;
pub mod render;
pub mod scene;
pub mod shader;
