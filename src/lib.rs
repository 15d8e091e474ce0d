//! Preparation and submission of GPU Fourier-transform jobs for an external
//! compute-plan engine.
//!
//! The library turns a transform description into the record the engine is
//! configured with, checks each invocation against that record, drives the
//! plan's lifecycle and decides how a recorded command stream is submitted.
//! Driver objects are referred to by their raw handles; each one carries a
//! caller-chosen keep-alive token that the library holds for as long as the
//! engine may use the object.

pub mod resource;
pub mod config;
pub mod launch;
pub mod error;
pub mod plan;
pub mod context;
