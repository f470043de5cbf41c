//! Idempotent build-and-publish pipeline for container images.
//!
//! Given a service name, a version identifier and a Dockerfile location,
//! the pipeline builds an image, tags it and pushes it to a remote
//! registry, but only when that exact version is not already published.
//! The registry existence check, the assembly of the command sequence and
//! the fail-fast orchestration are verified here; process spawning,
//! network calls and configuration reading live outside the library.

pub mod checker;
pub mod command;
pub mod pipeline;
pub mod request;
pub mod text;
