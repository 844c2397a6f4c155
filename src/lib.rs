//! Scaffolding for native Python extension projects: the manifest model and
//! the overlay that makes a generated project build a shared library, the
//! package name and file layout of a new project, and the failures of a run.
pub mod config;
pub mod document;
pub mod errors;
pub mod manifest;
pub mod ops;
pub mod value;
