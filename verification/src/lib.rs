//! Decision logic of a sandboxed build service: staging a project's sources,
//! describing the container run, finding the artifact and assembling the reply.

pub mod artifact;
pub mod config;
pub mod encoding;
pub mod models;
pub mod orchestrator;
pub mod outcome;
pub mod sandbox;
pub mod store;
pub mod text;
pub mod workspace;
