//! Reproducible builds of a project for one or more target platforms.
//!
//! The library is the engine that decides: it generates the build
//! description and holds it against the copy in place, says what the
//! execution environment is made of, follows each command while it runs,
//! drives the build of the targets one after the other, and keeps the
//! session log. It touches no file, no clock and no container engine: it is
//! handed what was read and hands back what is to be done.

pub mod config;
pub mod descriptor;
pub mod driver;
pub mod environment;
pub mod executor;
pub mod logging;
pub mod paths;
pub mod report;
pub mod session;
pub mod targets;
pub mod text;

pub use config::RepxConfig;
pub use descriptor::{ExtraInput, FLAKE_TEMPLATE};
pub use environment::ContainerInfo;
pub use logging::BuildLogger;
