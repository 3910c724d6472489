use recently_used_xbel::{
    custom_write, merge_access, record_access, AccessEvent, Application, Applications, Bookmark,
    Error, FileTimes, Info, Metadata, MimeType, RecentlyUsed, Timestamp,
};

const HEAD: &str = "<?xml version=\"1.0\" encoding=\"UTF-8\"?>\n<xbel version=\"1.0\" xmlns:bookmark=\"http://www.freedesktop.org/standards/desktop-bookmarks\" xmlns:mime=\"http://www.freedesktop.org/standards/shared-mime-info\">";

fn at(secs: i64) -> FileTimes {
    let t = Timestamp { secs, nanos: 0 };
    FileTimes { created: t, modified: t, accessed: t }
}

fn empty() -> RecentlyUsed {
    RecentlyUsed { bookmarks: vec![] }
}

fn record(r: RecentlyUsed, path: &str, app: &str, cmd: &str, secs: i64) -> RecentlyUsed {
    record_access(r, path, app.to_string(), cmd.to_string(), None, at(secs)).unwrap()
}

fn apps(b: &Bookmark) -> &Vec<Application> {
    &b.info.as_ref().unwrap().metadata.applications.applications
}

fn event(href: &str, app: &str, ts: &str) -> AccessEvent {
    AccessEvent {
        href: href.to_string(),
        added: ts.to_string(),
        modified: ts.to_string(),
        visited: ts.to_string(),
        app_name: app.to_string(),
        command: "run".to_string(),
        owner: "me".to_string(),
        mime_type: None,
    }
}

fn plain_bookmark(href: &str) -> Bookmark {
    Bookmark {
        href: href.to_string(),
        added: "a".to_string(),
        modified: "m".to_string(),
        visited: "v".to_string(),
        info: None,
    }
}

#[test]
fn first_access_from_empty_registry() {
    let r = record(empty(), "/tmp/a.txt", "org.test", "test", 0);
    assert_eq!(r.bookmarks.len(), 1);
    let b = &r.bookmarks[0];
    assert_eq!(b.href, "file:///tmp/a.txt");
    assert_eq!(b.added, "1970-01-01T00:00:00.000000Z");
    let m = &b.info.as_ref().unwrap().metadata;
    assert_eq!(m.owner, "http://freedesktop.org");
    assert_eq!(m.mime_type.as_ref().unwrap().mime_type, "text/plain");
    assert_eq!(m.applications.applications.len(), 1);
    let a = &m.applications.applications[0];
    assert_eq!(a.name, "org.test");
    assert_eq!(a.command, "test");
    assert_eq!(a.count, 1);
}

#[test]
fn second_access_increments_count() {
    let r = record(empty(), "/tmp/a.txt", "org.test", "test", 0);
    let r = record(r, "/tmp/a.txt", "org.test", "test", 86_400);
    assert_eq!(r.bookmarks.len(), 1);
    let a = apps(&r.bookmarks[0]);
    assert_eq!(a.len(), 1);
    assert_eq!(a[0].count, 2);
    assert_eq!(a[0].modified, "1970-01-02T00:00:00.000000Z");
    assert_eq!(r.bookmarks[0].visited, "1970-01-02T00:00:00.000000Z");
}

#[test]
fn other_application_is_appended() {
    let r = record(empty(), "/tmp/a.txt", "org.one", "one", 0);
    let r = record(r, "/tmp/a.txt", "org.two", "two", 1);
    let a = apps(&r.bookmarks[0]);
    assert_eq!(a.len(), 2);
    assert_eq!(a[0].name, "org.one");
    assert_eq!(a[0].count, 1);
    assert_eq!(a[1].name, "org.two");
    assert_eq!(a[1].count, 1);
}

#[test]
fn update_keeps_position_and_new_goes_last() {
    let r = record(empty(), "/tmp/a.txt", "x", "x", 0);
    let r = record(r, "/tmp/b.txt", "x", "x", 0);
    let r = record(r, "/tmp/c.txt", "x", "x", 0);
    let r = record(r, "/tmp/a.txt", "x", "x", 5);
    let hrefs: Vec<&str> = r.bookmarks.iter().map(|b| b.href.as_str()).collect();
    assert_eq!(hrefs, vec!["file:///tmp/a.txt", "file:///tmp/b.txt", "file:///tmp/c.txt"]);
    assert_eq!(apps(&r.bookmarks[0])[0].count, 2);
    let r = record(r, "/tmp/d.txt", "x", "x", 0);
    assert_eq!(r.bookmarks[3].href, "file:///tmp/d.txt");
}

#[test]
fn keys_stay_unique_over_many_accesses() {
    let mut r = empty();
    for (p, app) in [("/a", "x"), ("/b", "y"), ("/a", "y"), ("/a", "x"), ("/b", "y"), ("/c", "x")] {
        r = record(r, p, app, "cmd", 0);
    }
    assert_eq!(r.bookmarks.len(), 3);
    for (i, b) in r.bookmarks.iter().enumerate() {
        for c in &r.bookmarks[i + 1..] {
            assert_ne!(b.href, c.href);
        }
        let a = apps(b);
        for (j, x) in a.iter().enumerate() {
            for y in &a[j + 1..] {
                assert_ne!(x.name, y.name);
            }
        }
    }
    assert_eq!(apps(&r.bookmarks[0])[0].count, 2);
    assert_eq!(apps(&r.bookmarks[1])[0].count, 2);
}

#[test]
fn lost_update_between_two_writers() {
    let base = || record(empty(), "/tmp/shared.txt", "x", "x", 0);
    let first = record(base(), "/tmp/first.txt", "org.first", "first", 1);
    let second = record(base(), "/tmp/second.txt", "org.second", "second", 2);
    let first_text = custom_write(first).unwrap();
    assert!(first_text.contains("file:///tmp/first.txt"));
    let file = custom_write(second).unwrap();
    assert!(file.contains("file:///tmp/second.txt"));
    assert!(!file.contains("first"));
}

#[test]
fn existing_bookmark_without_info_stays_without() {
    let r = RecentlyUsed { bookmarks: vec![plain_bookmark("file:///x")] };
    let r = merge_access(r, event("file:///x", "app", "t1"));
    assert_eq!(r.bookmarks.len(), 1);
    assert!(r.bookmarks[0].info.is_none());
    assert_eq!(r.bookmarks[0].added, "t1");
    assert_eq!(r.bookmarks[0].modified, "t1");
}

#[test]
fn merge_creates_with_given_owner() {
    let r = merge_access(empty(), event("file:///y", "app", "t"));
    let m = &r.bookmarks[0].info.as_ref().unwrap().metadata;
    assert_eq!(m.owner, "me");
    assert!(m.mime_type.is_none());
    assert_eq!(m.applications.applications[0].modified, "t");
}

#[test]
fn record_with_owner() {
    let r = record_access(empty(), "/tmp/a.md", "a".to_string(), "b".to_string(), Some("o".to_string()), at(0)).unwrap();
    let m = &r.bookmarks[0].info.as_ref().unwrap().metadata;
    assert_eq!(m.owner, "o");
    assert_eq!(m.mime_type.as_ref().unwrap().mime_type, "text/markdown");
}

#[test]
fn count_is_held_at_maximum() {
    let mut b = plain_bookmark("file:///x");
    b.info = Some(Info {
        metadata: Metadata {
            owner: "o".to_string(),
            mime_type: None,
            applications: Applications {
                applications: vec![Application {
                    name: "app".to_string(),
                    command: "c".to_string(),
                    modified: "old".to_string(),
                    count: u32::MAX,
                }],
            },
        },
    });
    let r = merge_access(RecentlyUsed { bookmarks: vec![b] }, event("file:///x", "app", "new"));
    let a = apps(&r.bookmarks[0]);
    assert_eq!(a[0].count, u32::MAX);
    assert_eq!(a[0].modified, "new");
}

#[test]
fn relative_path_is_rejected() {
    let r = record_access(empty(), "tmp/a.txt", "a".to_string(), "b".to_string(), None, at(0));
    assert!(matches!(r, Err(Error::Path)));
    let r = record_access(empty(), "", "a".to_string(), "b".to_string(), None, at(0));
    assert!(matches!(r, Err(Error::Path)));
}

#[test]
fn out_of_range_time_is_rejected() {
    let r = record_access(empty(), "/tmp/a.txt", "a".to_string(), "b".to_string(), None, at(i64::MAX));
    assert!(matches!(r, Err(Error::Metadata(_))));
}

#[test]
fn href_is_percent_encoded() {
    let r = record(empty(), "/tmp/a b.txt", "x", "x", 0);
    assert_eq!(r.bookmarks[0].href, "file:///tmp/a%20b.txt");
}

#[test]
fn path_without_extension_has_no_mime_type() {
    let r = record(empty(), "/tmp/noext", "x", "x", 0);
    assert!(r.bookmarks[0].info.as_ref().unwrap().metadata.mime_type.is_none());
}

#[test]
fn timestamp_has_microseconds() {
    let t = FileTimes {
        created: Timestamp { secs: 1_431_648_000, nanos: 123_456_789 },
        modified: Timestamp { secs: 0, nanos: 0 },
        accessed: Timestamp { secs: 0, nanos: 0 },
    };
    let r = record_access(empty(), "/a", "x".to_string(), "x".to_string(), None, t).unwrap();
    assert_eq!(r.bookmarks[0].added, "2015-05-15T00:00:00.123456Z");
}

#[test]
fn render_empty_registry() {
    assert_eq!(custom_write(empty()).unwrap(), format!("{}</xbel>", HEAD));
}

#[test]
fn render_bookmark_without_info() {
    let r = RecentlyUsed { bookmarks: vec![plain_bookmark("file:///x")] };
    assert_eq!(
        custom_write(r).unwrap(),
        format!("{}<bookmark href=\"file:///x\" added=\"a\" modified=\"m\" visited=\"v\"></bookmark></xbel>", HEAD)
    );
}

#[test]
fn render_full_bookmark() {
    let mut b = plain_bookmark("file:///a&b");
    b.info = Some(Info {
        metadata: Metadata {
            owner: "http://freedesktop.org".to_string(),
            mime_type: Some(MimeType { mime_type: "text/plain".to_string() }),
            applications: Applications {
                applications: vec![Application {
                    name: "<app>".to_string(),
                    command: "'x' \"y\"".to_string(),
                    modified: "t".to_string(),
                    count: 12,
                }],
            },
        },
    });
    let expected = format!(
        "{}<bookmark href=\"file:///a&amp;b\" added=\"a\" modified=\"m\" visited=\"v\"><info><metadata owner=\"http://freedesktop.org\"><mime:mime-type type=\"text/plain\"/><bookmark:applications><bookmark:application name=\"&lt;app&gt;\" exec=\"&apos;x&apos; &quot;y&quot;\" modified=\"t\" count=\"12\"/></bookmark:applications></metadata></info></bookmark></xbel>",
        HEAD
    );
    assert_eq!(custom_write(RecentlyUsed { bookmarks: vec![b] }).unwrap(), expected);
}

#[test]
fn render_without_mime_type_or_applications() {
    let mut b = plain_bookmark("file:///x");
    b.info = Some(Info {
        metadata: Metadata {
            owner: "o".to_string(),
            mime_type: None,
            applications: Applications { applications: vec![] },
        },
    });
    assert_eq!(
        custom_write(RecentlyUsed { bookmarks: vec![b] }).unwrap(),
        format!("{}<bookmark href=\"file:///x\" added=\"a\" modified=\"m\" visited=\"v\"><info><metadata owner=\"o\"><bookmark:applications></bookmark:applications></metadata></info></bookmark></xbel>", HEAD)
    );
}
