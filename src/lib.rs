//! Keeps the entries of a `.env` file, held in memory by `envie`, in step
//! with a process-environment table: every change reaches the file first and
//! the environment after, and a reload re-exports what the file holds.

pub mod key;
pub mod store;
pub mod sync;
pub mod system;

pub use key::{is_exportable, is_valid_key, refused_names};
pub use sync::{EnvSync, SyncError};
pub use system::SystemEnv;
