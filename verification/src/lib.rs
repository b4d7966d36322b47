//! Companion-application orchestrator core.
//!
//! A set of heterogeneous external tools is described by descriptors that all
//! offer the same capability interface: presence checking, conditional
//! download, and conditional launch. A lifecycle coordinator plans the
//! two-phase "download everything permitted, then launch everything enabled
//! and present" sequence, and a replay watcher turns file-creation events,
//! gated by a live key-state sample, into renderer invocations.
//!
//! All decision logic lives here and is verified; the host program performs
//! the actual network, filesystem, and process work that the plans describe.

pub mod app_data;
pub mod archive;
pub mod coordinator;
pub mod data;
pub mod errors;
pub mod file_probe;
pub mod general;
pub mod manager;
pub mod pathing;
pub mod watcher;

pub use errors::AppDataError;
pub use errors::AppProcessError;
