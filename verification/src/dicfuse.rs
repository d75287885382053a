//! The virtual tree cache: a read-only tree whose directories and file
//! contents arrive from a content store, on demand or all up front.

pub mod attr;
pub mod laws;
pub mod store;
pub mod tree;

pub use self::attr::{AttributeSnapshot, InodeKind, ATTR_TTL_SECS};
pub use self::store::{DirEntry, FetchKind, FetchRequest, Step, StoreItem};
pub use self::tree::{Dicfuse, InodeEntry, ROOT_INODE};
