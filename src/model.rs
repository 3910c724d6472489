//! The registry's data types and their mathematical models.
use vstd::prelude::*;

verus! {

/// What an [`Application`] stands for.
pub struct ApplicationModel {
    pub name: Seq<char>,
    pub command: Seq<char>,
    pub modified: Seq<char>,
    pub count: u32,
}

/// What a [`Metadata`] (or the [`Info`] that wraps it) stands for.
pub struct MetadataModel {
    pub owner: Seq<char>,
    pub mime_type: Option<Seq<char>>,
    pub applications: Seq<ApplicationModel>,
}

/// What a [`Bookmark`] stands for.
pub struct BookmarkModel {
    pub href: Seq<char>,
    pub added: Seq<char>,
    pub modified: Seq<char>,
    pub visited: Seq<char>,
    pub info: Option<MetadataModel>,
}

/// Stores recently-opened files accessed by the desktop user.
#[derive(Debug)]
pub struct RecentlyUsed {
    /// Files that have been recently used.
    pub bookmarks: Vec<Bookmark>,
}

/// A file that was recently opened by the desktop user.
#[derive(Debug)]
pub struct Bookmark {
    /// The location of the file.
    pub href: String,
    /// When the file was added to the list.
    pub added: String,
    /// When the file was last modified.
    pub modified: String,
    /// When the file was last visited.
    pub visited: String,
    /// Additional metadata and applications related to the bookmark.
    pub info: Option<Info>,
}

/// Wraps the metadata of a bookmark.
#[derive(Debug)]
pub struct Info {
    /// Metadata about the bookmark.
    pub metadata: Metadata,
}

/// Metadata containing MIME type and application info.
#[derive(Debug)]
pub struct Metadata {
    /// The owner of the metadata.
    pub owner: String,
    /// The MIME type information.
    pub mime_type: Option<MimeType>,
    /// The applications that have accessed the file.
    pub applications: Applications,
}

/// The MIME type of the file.
#[derive(Debug)]
pub struct MimeType {
    /// The type of the file (e.g., "text/markdown").
    pub mime_type: String,
}

/// A list of applications that accessed the bookmark.
#[derive(Debug)]
pub struct Applications {
    /// The list of applications.
    pub applications: Vec<Application>,
}

/// An application that accessed the bookmark.
#[derive(Debug)]
pub struct Application {
    /// The name of the application.
    pub name: String,
    /// The command used to execute the application.
    pub command: String,
    /// When the application last used the bookmark.
    pub modified: String,
    /// The number of times the application has accessed the bookmark.
    pub count: u32,
}

/// An error that can occur when accessing recently-used files.
#[derive(Debug, Clone, PartialEq, Eq)]
pub enum Error {
    /// The registry file's location could not be determined, or it is absent.
    DoesNotExist,
    /// The registry file's content is not a registry; the cause in words.
    Deserialization(String),
    /// The registry could not be rendered.
    Serialization,
    /// The registry file could not be read; the cause in words.
    Read(String),
    /// A timestamp of the accessed file could not be obtained; the cause in words.
    Metadata(String),
    /// The accessed path has no `file://` form.
    Path,
    /// The registry file could not be written.
    Update,
}

/// The model of a sequence of applications.
pub open spec fn applications_view(s: Seq<Application>) -> Seq<ApplicationModel> {
    s.map_values(|a: Application| a@)
}

/// The model of a sequence of bookmarks.
pub open spec fn bookmarks_view(s: Seq<Bookmark>) -> Seq<BookmarkModel> {
    s.map_values(|b: Bookmark| b@)
}

impl View for Application {
    type V = ApplicationModel;

    open spec fn view(&self) -> ApplicationModel {
        ApplicationModel {
            name: self.name@,
            command: self.command@,
            modified: self.modified@,
            count: self.count,
        }
    }
}

impl View for Applications {
    type V = Seq<ApplicationModel>;

    open spec fn view(&self) -> Seq<ApplicationModel> {
        applications_view(self.applications@)
    }
}

impl View for MimeType {
    type V = Seq<char>;

    open spec fn view(&self) -> Seq<char> {
        self.mime_type@
    }
}

impl View for Metadata {
    type V = MetadataModel;

    open spec fn view(&self) -> MetadataModel {
        MetadataModel {
            owner: self.owner@,
            mime_type: match self.mime_type {
                Some(m) => Some(m@),
                None => None,
            },
            applications: self.applications@,
        }
    }
}

impl View for Info {
    type V = MetadataModel;

    open spec fn view(&self) -> MetadataModel {
        self.metadata@
    }
}

impl View for Bookmark {
    type V = BookmarkModel;

    open spec fn view(&self) -> BookmarkModel {
        BookmarkModel {
            href: self.href@,
            added: self.added@,
            modified: self.modified@,
            visited: self.visited@,
            info: match self.info {
                Some(i) => Some(i@),
                None => None,
            },
        }
    }
}

impl View for RecentlyUsed {
    type V = Seq<BookmarkModel>;

    open spec fn view(&self) -> Seq<BookmarkModel> {
        bookmarks_view(self.bookmarks@)
    }
}

} // verus!
