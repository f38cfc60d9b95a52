//! Compiles programming-contest problem statements into per-day PDF booklets.
//!
//! The crate resolves a three-level configuration hierarchy
//! (contest, contest day, problem), derives a flat presentation manifest
//! for one day, and drives a staging/render pipeline that assembles a
//! working directory, converts each statement document, and promotes the
//! compiled artifact on success.

pub mod config;
pub mod dotcall;
pub mod init;
pub mod manifest;
pub mod ren;
pub mod errors;
pub mod strutil;
