//! Scalar-agnostic structure of a perspective viewing frustum.
//!
//! A frustum is the image in query space of the clip cube `[-1, 1]^3` under a
//! projective map. This crate fixes the canonical ordering of the cube's
//! eight vertices, the six representative edges and the five face spans
//! that a separating-axis test needs, and proves the facts that the
//! ordering is relied on for. The assembly functions build the corner, edge
//! and face-normal arrays from caller-supplied numeric operations, so the
//! same verified layout serves every scalar type.

pub mod cube;
pub mod assembly;
