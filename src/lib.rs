//! A read-only virtual filesystem over a remote drive: a directory cache keyed
//! by relative paths, a path resolver that walks the drive one ancestor at a
//! time, and a seekable handle over ranged downloads.

mod cache;
mod encode;
mod error;
mod file;
mod handle;
mod path;
mod walk;

pub use cache::{settle_refresh, DirCache, ReadDirPlan, DIR_IDLE_SECS, DIR_TTL_SECS};
pub use encode::{ancestor_href, encode_path, needs_escape};
pub use error::FsError;
pub use file::AliyunFile;
pub use handle::{AliyunDavFile, ReadRequest, SeekOrigin};
pub use path::{find_child, find_in_listing, leaf_of, parent_of};
pub use walk::{PathWalk, WalkStep};
