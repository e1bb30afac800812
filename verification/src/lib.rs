//! The verified core of a small ray-tracing project: exact 3-component
//! vector algebra together with its proved laws, a unit-vector type whose
//! values come only from a validated constructor, and a raster routine with
//! a full functional contract.

pub mod geometry;
pub mod render;
