//! An asynchronous, non-blocking handle over a blocking file-like resource.
//!
//! The handle is a four-state machine (idle, reading, writing, seeking) that
//! owns at most one underlying resource and at most one in-flight background
//! task at a time. Blocking work runs in background pump tasks; bytes move
//! between the caller and a pump through a bounded byte pipe.

pub mod ext;
pub mod file;
pub mod model;
pub mod pump;

pub use file::File;
pub use file::Mode;
pub use file::SeekPos;
