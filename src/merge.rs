//! Folding one file access into a loaded registry.
use vstd::prelude::*;

use crate::model::{
    applications_view, bookmarks_view, Application, ApplicationModel, Applications, Bookmark,
    BookmarkModel, Info, Metadata, MetadataModel, MimeType, RecentlyUsed,
};

verus! {

/// One access to a file, with everything already resolved: its `file://`
/// location, its timestamps, the owner and the MIME type a new bookmark gets.
#[derive(Debug)]
pub struct AccessEvent {
    pub href: String,
    pub added: String,
    pub modified: String,
    pub visited: String,
    pub app_name: String,
    pub command: String,
    pub owner: String,
    pub mime_type: Option<String>,
}

/// What an [`AccessEvent`] stands for.
pub struct AccessEventModel {
    pub href: Seq<char>,
    pub added: Seq<char>,
    pub modified: Seq<char>,
    pub visited: Seq<char>,
    pub app_name: Seq<char>,
    pub command: Seq<char>,
    pub owner: Seq<char>,
    pub mime_type: Option<Seq<char>>,
}

impl View for AccessEvent {
    type V = AccessEventModel;

    open spec fn view(&self) -> AccessEventModel {
        AccessEventModel {
            href: self.href@,
            added: self.added@,
            modified: self.modified@,
            visited: self.visited@,
            app_name: self.app_name@,
            command: self.command@,
            owner: self.owner@,
            mime_type: match self.mime_type {
                Some(m) => Some(m@),
                None => None,
            },
        }
    }
}

/// The position of the first bookmark located at `href`, or -1.
pub open spec fn href_index(s: Seq<BookmarkModel>, href: Seq<char>) -> int
    decreases s.len(),
{
    if s.len() == 0 {
        -1
    } else {
        let k = href_index(s.drop_last(), href);
        if k >= 0 {
            k
        } else if s.last().href == href {
            s.len() - 1
        } else {
            -1
        }
    }
}

/// The position of the first application called `name`, or -1.
pub open spec fn name_index(s: Seq<ApplicationModel>, name: Seq<char>) -> int
    decreases s.len(),
{
    if s.len() == 0 {
        -1
    } else {
        let k = name_index(s.drop_last(), name);
        if k >= 0 {
            k
        } else if s.last().name == name {
            s.len() - 1
        } else {
            -1
        }
    }
}

/// The count after one more use: one more, held at `u32::MAX`.
pub open spec fn next_count(c: u32) -> u32 {
    if c < u32::MAX {
        (c + 1) as u32
    } else {
        c
    }
}

/// An application record on its first use.
pub open spec fn first_use(name: Seq<char>, command: Seq<char>, at: Seq<char>) -> ApplicationModel {
    ApplicationModel { name, command, modified: at, count: 1 }
}

/// An application record after one more use at `at`.
pub open spec fn next_use(a: ApplicationModel, at: Seq<char>) -> ApplicationModel {
    ApplicationModel { name: a.name, command: a.command, modified: at, count: next_count(a.count) }
}

/// The applications after `name` used the file at `at`: its record is
/// updated in place, or a new one is appended.
pub open spec fn used_by(
    s: Seq<ApplicationModel>,
    name: Seq<char>,
    command: Seq<char>,
    at: Seq<char>,
) -> Seq<ApplicationModel> {
    let i = name_index(s, name);
    if i >= 0 {
        s.update(i, next_use(s[i], at))
    } else {
        s.push(first_use(name, command, at))
    }
}

/// An existing bookmark after the access `e`: fresh timestamps, and its
/// application history (if it has one) records the use.
pub open spec fn touched(b: BookmarkModel, e: AccessEventModel) -> BookmarkModel {
    BookmarkModel {
        href: b.href,
        added: e.added,
        modified: e.modified,
        visited: e.visited,
        info: match b.info {
            Some(m) => Some(
                MetadataModel {
                    owner: m.owner,
                    mime_type: m.mime_type,
                    applications: used_by(m.applications, e.app_name, e.command, e.modified),
                },
            ),
            None => None,
        },
    }
}

/// The bookmark that the access `e` creates for a file never seen before.
pub open spec fn created(e: AccessEventModel) -> BookmarkModel {
    BookmarkModel {
        href: e.href,
        added: e.added,
        modified: e.modified,
        visited: e.visited,
        info: Some(
            MetadataModel {
                owner: e.owner,
                mime_type: e.mime_type,
                applications: seq![first_use(e.app_name, e.command, e.modified)],
            },
        ),
    }
}

/// The registry after the access `e`: the bookmark at `e.href` is touched in
/// place, or a new one is appended.
pub open spec fn merged(s: Seq<BookmarkModel>, e: AccessEventModel) -> Seq<BookmarkModel> {
    let i = href_index(s, e.href);
    if i >= 0 {
        s.update(i, touched(s[i], e))
    } else {
        s.push(created(e))
    }
}

/// `href_index` is the first position holding `href`, and -1 when none does.
pub proof fn lemma_href_index(s: Seq<BookmarkModel>, href: Seq<char>)
    ensures
        -1 <= href_index(s, href) < s.len(),
        href_index(s, href) >= 0 ==> s[href_index(s, href)].href == href,
        forall|k: int|
            0 <= k < s.len() && (href_index(s, href) < 0 || k < href_index(s, href))
                ==> s[k].href != href,
    decreases s.len(),
{
    if s.len() > 0 {
        lemma_href_index(s.drop_last(), href);
        assert(forall|k: int| 0 <= k < s.len() - 1 ==> s.drop_last()[k] == s[k]);
    }
}

/// `name_index` is the first position holding `name`, and -1 when none does.
pub proof fn lemma_name_index(s: Seq<ApplicationModel>, name: Seq<char>)
    ensures
        -1 <= name_index(s, name) < s.len(),
        name_index(s, name) >= 0 ==> s[name_index(s, name)].name == name,
        forall|k: int|
            0 <= k < s.len() && (name_index(s, name) < 0 || k < name_index(s, name))
                ==> s[k].name != name,
    decreases s.len(),
{
    if s.len() > 0 {
        lemma_name_index(s.drop_last(), name);
        assert(forall|k: int| 0 <= k < s.len() - 1 ==> s.drop_last()[k] == s[k]);
    }
}

/// Finds the first bookmark located at `href`.
pub fn find_bookmark(bookmarks: &Vec<Bookmark>, href: &String) -> (r: Option<usize>)
    ensures
        match r {
            Some(i) => i < bookmarks@.len() && i == href_index(bookmarks_view(bookmarks@), href@),
            None => href_index(bookmarks_view(bookmarks@), href@) < 0,
        },
{
    let ghost s = bookmarks_view(bookmarks@);
    proof {
        lemma_href_index(s, href@);
    }
    let mut i: usize = 0;
    while i < bookmarks.len()
        invariant
            i <= bookmarks.len(),
            s == bookmarks_view(bookmarks@),
            forall|k: int| 0 <= k < i ==> s[k].href != href@,
            -1 <= href_index(s, href@) < s.len(),
            href_index(s, href@) >= 0 ==> s[href_index(s, href@)].href == href@,
            forall|k: int|
                0 <= k < s.len() && (href_index(s, href@) < 0 || k < href_index(s, href@))
                    ==> s[k].href != href@,
        decreases bookmarks.len() - i,
    {
        assert(s[i as int] == bookmarks@[i as int]@);
        if bookmarks[i].href == *href {
            return Some(i);
        }
        i += 1;
    }
    None
}

/// Finds the first application called `name`.
pub fn find_application(apps: &Vec<Application>, name: &String) -> (r: Option<usize>)
    ensures
        match r {
            Some(i) => i < apps@.len() && i == name_index(applications_view(apps@), name@),
            None => name_index(applications_view(apps@), name@) < 0,
        },
{
    let ghost s = applications_view(apps@);
    proof {
        lemma_name_index(s, name@);
    }
    let mut i: usize = 0;
    while i < apps.len()
        invariant
            i <= apps.len(),
            s == applications_view(apps@),
            forall|k: int| 0 <= k < i ==> s[k].name != name@,
            -1 <= name_index(s, name@) < s.len(),
            name_index(s, name@) >= 0 ==> s[name_index(s, name@)].name == name@,
            forall|k: int|
                0 <= k < s.len() && (name_index(s, name@) < 0 || k < name_index(s, name@))
                    ==> s[k].name != name@,
        decreases apps.len() - i,
    {
        assert(s[i as int] == apps@[i as int]@);
        if apps[i].name == *name {
            return Some(i);
        }
        i += 1;
    }
    None
}

/// Records one use of the file by the application `name` at `at`.
pub fn record_use(apps: &mut Vec<Application>, name: String, command: String, at: String)
    ensures
        applications_view(final(apps)@) == used_by(
            applications_view(old(apps)@),
            name@,
            command@,
            at@,
        ),
{
    let ghost s = applications_view(apps@);
    match find_application(apps, &name) {
        Some(i) => {
            let mut a = apps.remove(i);
            a.count = if a.count < u32::MAX {
                a.count + 1
            } else {
                a.count
            };
            a.modified = at;
            apps.insert(i, a);
            assert(applications_view(apps@) =~= s.update(i as int, next_use(s[i as int], at@)));
        },
        None => {
            apps.push(Application { name, command, modified: at, count: 1 });
            assert(applications_view(apps@) =~= s.push(first_use(name@, command@, at@)));
        },
    }
}

/// Folds the access `event` into `registry`.
///
/// The bookmark located at `event.href` gets the event's timestamps in place,
/// and its application history (if any) records the use; a bookmark with no
/// history keeps none. Where no bookmark is located there, a new one with one
/// application record is appended.
pub fn merge_access(registry: RecentlyUsed, event: AccessEvent) -> (r: RecentlyUsed)
    ensures
        r@ == merged(registry@, event@),
{
    let ghost s = registry@;
    let ghost e = event@;
    let mut bookmarks = registry.bookmarks;
    let AccessEvent { href, added, modified, visited, app_name, command, owner, mime_type } = event;
    match find_bookmark(&bookmarks, &href) {
        Some(i) => {
            let Bookmark { href: old_href, info, .. } = bookmarks.remove(i);
            let info = match info {
                Some(info) => {
                    let Info { metadata } = info;
                    let Metadata { owner: old_owner, mime_type: old_mime, applications } = metadata;
                    let mut apps = applications.applications;
                    record_use(&mut apps, app_name, command, modified.clone());
                    Some(
                        Info {
                            metadata: Metadata {
                                owner: old_owner,
                                mime_type: old_mime,
                                applications: Applications { applications: apps },
                            },
                        },
                    )
                },
                None => None,
            };
            let b = Bookmark { href: old_href, added, modified, visited, info };
            assert(b@ == touched(s[i as int], e));
            bookmarks.insert(i, b);
            assert(bookmarks_view(bookmarks@) =~= s.update(i as int, touched(s[i as int], e)));
        },
        None => {
            let mime_type = match mime_type {
                Some(m) => Some(MimeType { mime_type: m }),
                None => None,
            };
            let mut apps: Vec<Application> = Vec::new();
            apps.push(Application { name: app_name, command, modified: modified.clone(), count: 1 });
            let b = Bookmark {
                href,
                added,
                modified,
                visited,
                info: Some(
                    Info {
                        metadata: Metadata {
                            owner,
                            mime_type,
                            applications: Applications { applications: apps },
                        },
                    },
                ),
            };
            assert(applications_view(apps@) =~= seq![first_use(e.app_name, e.command, e.modified)]);
            assert(b@ == created(e));
            bookmarks.push(b);
            assert(bookmarks_view(bookmarks@) =~= s.push(created(e)));
        },
    }
    RecentlyUsed { bookmarks }
}

} // verus!
