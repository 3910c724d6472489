//! Turning a file access into an [`AccessEvent`] and folding it into a
//! registry: the file's `file://` location, its timestamps as text and its
//! MIME type come from outside crates.
use vstd::prelude::*;

use crate::merge::{merge_access, merged, AccessEvent, AccessEventModel};
use crate::model::{Error, RecentlyUsed};

verus! {

/// The `file://` URL of an absolute path, as the `url` crate serialises it.
pub uninterp spec fn file_url(path: Seq<char>) -> Seq<char>;

/// The MIME type (`type/subtype`) that `mime_guess` gives first for a path.
pub uninterp spec fn guessed_mime(path: Seq<char>) -> Option<Seq<char>>;

/// A moment as RFC 3339 text in UTC, with microseconds and a `Z` suffix,
/// when `chrono` can represent it.
pub uninterp spec fn rfc3339_micros(secs: i64, nanos: u32) -> Option<Seq<char>>;

/// A moment as seconds and nanoseconds since the Unix epoch.
#[derive(Debug, Clone, Copy, PartialEq, Eq)]
pub struct Timestamp {
    pub secs: i64,
    pub nanos: u32,
}

/// The three timestamps of an accessed file.
#[derive(Debug, Clone, Copy, PartialEq, Eq)]
pub struct FileTimes {
    pub created: Timestamp,
    pub modified: Timestamp,
    pub accessed: Timestamp,
}

/// Whether a path is absolute in the Unix sense: it starts at the root.
pub open spec fn is_absolute(path: Seq<char>) -> bool {
    path.len() > 0 && path[0] == '/'
}

/// The owner a new bookmark gets when the caller names none.
pub open spec fn default_owner() -> Seq<char> {
    "http://freedesktop.org"@
}

/// The owner a new bookmark gets.
pub open spec fn owner_of(owner: Option<String>) -> Seq<char> {
    match owner {
        Some(o) => o@,
        None => default_owner(),
    }
}

/// The text of a timestamp, where it has one.
pub open spec fn time_text(t: Timestamp) -> Option<Seq<char>> {
    rfc3339_micros(t.secs, t.nanos)
}

/// The view of an optional string.
pub open spec fn opt_view(o: Option<String>) -> Option<Seq<char>> {
    match o {
        Some(s) => Some(s@),
        None => None,
    }
}

/// The event that an access to `path` at `times` by `app_name` stands for,
/// where the path and all three timestamps have text.
pub open spec fn access_event(
    path: Seq<char>,
    app_name: Seq<char>,
    command: Seq<char>,
    owner: Seq<char>,
    times: FileTimes,
) -> AccessEventModel {
    AccessEventModel {
        href: file_url(path),
        added: time_text(times.created)->0,
        modified: time_text(times.modified)->0,
        visited: time_text(times.accessed)->0,
        app_name,
        command,
        owner,
        mime_type: guessed_mime(path),
    }
}

/// Relies on url::Url::from_file_path (Unix): it fails exactly on a path
/// that is not absolute, and otherwise gives a `file://` URL with the path
/// percent-encoded segment by segment.
#[verifier::external_body]
fn path_to_href(path: &str) -> (r: Option<String>)
    ensures
        r is Some <==> is_absolute(path@),
        r matches Some(u) ==> u@ == file_url(path@),
{
    url::Url::from_file_path(path).ok().map(|u| String::from(u))
}

/// Relies on mime_guess::from_path and its first guess, written as
/// `type/subtype`; the guess depends on the path's extension alone.
#[verifier::external_body]
fn mime_from_path(path: &str) -> (r: Option<String>)
    ensures
        opt_view(r) == guessed_mime(path@),
{
    mime_guess::from_path(path).first().map(|m| format!("{}/{}", m.type_(), m.subtype()))
}

/// Relies on chrono's DateTime::<Utc>::from_timestamp, which fails on a moment
/// out of its range, and on to_rfc3339_opts with microseconds and `Z`.
#[verifier::external_body]
fn system_time_to_string(t: Timestamp) -> (r: Option<String>)
    ensures
        opt_view(r) == rfc3339_micros(t.secs, t.nanos),
{
    chrono::DateTime::<chrono::Utc>::from_timestamp(t.secs, t.nanos).map(
        |d| d.to_rfc3339_opts(chrono::SecondsFormat::Micros, true),
    )
}

/// Records that `app_name` (run as `command`) accessed the file at `path`,
/// whose timestamps are `times`, in `registry`.
///
/// Fails with [`Error::Path`] when the path is not absolute, and with
/// [`Error::Metadata`] when a timestamp has no text; otherwise the result is
/// the registry merged with the resolved access. A new bookmark is owned by
/// `owner`, or by `http://freedesktop.org` when none is given.
pub fn record_access(
    registry: RecentlyUsed,
    path: &str,
    app_name: String,
    command: String,
    owner: Option<String>,
    times: FileTimes,
) -> (r: Result<RecentlyUsed, Error>)
    ensures
        !is_absolute(path@) ==> r == Err::<RecentlyUsed, Error>(Error::Path),
        is_absolute(path@) && (time_text(times.created) is None || time_text(times.modified) is None
            || time_text(times.accessed) is None) ==> r matches Err(Error::Metadata(_)),
        is_absolute(path@) && time_text(times.created) is Some && time_text(times.modified) is Some
            && time_text(times.accessed) is Some ==> (r matches Ok(n) && n@ == merged(
            registry@,
            access_event(path@, app_name@, command@, owner_of(owner), times),
        )),
{
    let href = match path_to_href(path) {
        Some(h) => h,
        None => return Err(Error::Path),
    };
    let added = match system_time_to_string(times.created) {
        Some(t) => t,
        None => return Err(Error::Metadata(String::from_str("creation time out of range"))),
    };
    let modified = match system_time_to_string(times.modified) {
        Some(t) => t,
        None => return Err(Error::Metadata(String::from_str("modification time out of range"))),
    };
    let visited = match system_time_to_string(times.accessed) {
        Some(t) => t,
        None => return Err(Error::Metadata(String::from_str("access time out of range"))),
    };
    let owner = match owner {
        Some(o) => o,
        None => String::from_str("http://freedesktop.org"),
    };
    let mime_type = mime_from_path(path);
    let event = AccessEvent { href, added, modified, visited, app_name, command, owner, mime_type };
    Ok(merge_access(registry, event))
}

} // verus!
