//! Importing mod profiles that another mod manager left on disk.
//!
//! The crate holds the decisions of such an import: where the other manager
//! keeps its data, which directories are profiles, whether a profile can be
//! imported, what to publish while the package registry is still loading, and
//! how a batch of profiles proceeds when single profiles fail. Every touch of
//! the file system, the profile store and the clock is left to the caller,
//! who performs the commands that the crate hands out and reports what came
//! of them.

pub mod batch;
pub mod discovery;
pub mod gate;
pub mod laws;
pub mod location;
pub mod manager_data;
pub mod model;
pub mod paths;
pub mod prepare;
pub mod status;
