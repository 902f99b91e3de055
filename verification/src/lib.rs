//! Dependency diagrams for multi-module Gradle builds.
//!
//! The library extracts the `implementation.project(..)` declarations of a
//! build file, names the module a build file belongs to, and renders the
//! collected modules as a PlantUML document.

pub mod text;
pub mod render;
pub mod render_laws;
pub mod extract;
pub mod naming;
pub mod palette;
pub mod scan;
