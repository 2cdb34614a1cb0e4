//! Reconciliation engine of a course-archival tool: the decisions on what to
//! fetch, overwrite or archive, the atomic fetch plans that carry them out
//! with a model of the disk they are proved against, and the pure parts of
//! the renderer, the video queue, shared-drive mirroring and the status
//! bookkeeping.

pub mod update;
pub mod text;
pub mod artifact;
pub mod reconcile;
pub mod disk_model;
pub mod pattern;
pub mod url_parts;
pub mod youtube;
pub mod filter;
pub mod status;
pub mod renderer;
pub mod config;
pub mod errors;
pub mod downloader;
pub mod api;
pub mod login;
pub mod webdav;
