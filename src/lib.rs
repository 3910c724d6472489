//! Reading and updating the freedesktop `recently-used.xbel` registry.
//!
//! The library holds the data model of the registry, a verified emitter for
//! its XML form, and the verified rule that folds one file access into a
//! loaded registry.
pub mod access;
pub mod codec;
pub mod laws;
pub mod merge;
pub mod model;

pub use access::{record_access, FileTimes, Timestamp};
pub use codec::custom_write;
pub use merge::{merge_access, AccessEvent};
pub use model::{
    Application, ApplicationModel, Applications, Bookmark, BookmarkModel, Error, Info, Metadata,
    MetadataModel, MimeType, RecentlyUsed,
};
