//! Session-scoped lock markers.
//!
//! A [`LockFile`] binds a session name to a marker path inside a lock
//! directory. The marker's existence is the lock state: `lock` brings it into
//! existence, `is_locked` observes it and `release` removes it.
//!
//! The decisions that each operation makes are verified functions of what was
//! observed (see [`outcome`]), so that a runner over the real filesystem and
//! the in-memory [`MarkerDir`] share them.
pub mod laws;
pub mod lock_file;
pub mod marker_dir;
pub mod outcome;

pub use lock_file::{LockFile, DEFAULT_LOCK_DIR, MARKER_CONTENTS};
pub use marker_dir::MarkerDir;
pub use outcome::{AcquireOutcome, AcquireStep, CreateResult, ReleaseOutcome, ReleaseStep};
