//! Scaffolding of plugin projects: path resolution, manifest rewriting,
//! source templating, and the step-by-step driver that ties them together.

pub mod path;
pub mod error;
pub mod manifest;
pub mod template;
pub mod new;
