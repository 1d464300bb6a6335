//! The trace types that build on the shared values.
pub mod mesh3d;
pub mod surface;
