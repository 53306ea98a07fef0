//! A small 3D mesh rendering core.
//!
//! The core lays out interleaved vertex data for a shader's attribute
//! format, manages the element counts and handles of GPU-resident
//! resources, and decides which GPU commands each public operation
//! issues.  The GPU context itself is a global, thread-affine state
//! machine driven through an unverifiable foreign interface, so the
//! core never touches it directly: every operation returns the exact
//! sequence of [`commands::GlCommand`] values to issue, and an
//! unverified shell executes them in order against the real context.
//! The effect of each command on the context's binding and resource
//! state is modelled in [`gl_model`], and the laws in [`laws`] are
//! proved against that model.

pub mod commands;
pub mod gl_model;
pub mod laws;
pub mod mesh;
pub mod renderer;
