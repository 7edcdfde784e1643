//! Decision logic of a Python package installer: target platforms, command-line flag
//! normalization, static dependency metadata, and the install and uninstall pipelines.

pub mod target_triple;
pub mod options;
pub mod dependency_metadata;
pub mod text;
pub mod environment;
pub mod install;
pub mod uninstall;
