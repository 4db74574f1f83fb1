//! Verified core of a disk-space cleanup and software-removal tool.
//!
//! The library holds the logic of the cleanup pipeline: deciding which
//! candidate paths are excluded, measuring sizes over a filesystem
//! snapshot, classifying each path into an outcome, and accounting the
//! bytes freed. All filesystem access, parallel scheduling and console
//! rendering live outside the library and hand it plain values.

pub mod aggregate;
pub mod engine;
pub mod format;
pub mod ignore;
pub mod measure;
pub mod pipeline;
pub mod sources;
pub mod textutil;
pub mod uninstall;
