//! A small, copyable path reference that holds either a `Path` or a `str`,
//! and a three-state copy-on-write path built on top of it.
pub mod host_path;
pub mod maybe_path;
pub mod not_cow;

pub use maybe_path::MaybePath;
pub use not_cow::MaybePathBuf;
