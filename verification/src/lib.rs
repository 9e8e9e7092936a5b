//! Loading of STEP models into engine-ready triangle meshes.
//!
//! A load drains a stream, hands the bytes to a background pool that parses
//! and tessellates them, and lays the tessellated mesh out in the buffers the
//! engine draws from. This crate holds what such a load decides and computes:
//! the data model in [`mesh`], the layout transform in [`convert`], the
//! loader's decisions in [`loader`] and its failures in [`error`].

pub mod convert;
pub mod error;
pub mod loader;
pub mod mesh;

pub use convert::to_engine_mesh;
pub use error::StepError;
pub use loader::{BackgroundJob, StepLoader};
pub use mesh::{EngineMesh, GenericMesh, Triangle, Vertex, UV_PLACEHOLDER};
