//! Properties of the merge rule over one or more accesses.
use vstd::prelude::*;

use crate::merge::{
    created, href_index, lemma_href_index, lemma_name_index, merged, name_index, touched, used_by,
    AccessEventModel,
};
use crate::model::{ApplicationModel, BookmarkModel};

verus! {

/// No two applications share a name.
pub open spec fn distinct_names(s: Seq<ApplicationModel>) -> bool {
    forall|j: int, k: int| 0 <= j < k < s.len() ==> s[j].name != s[k].name
}

/// No two bookmarks share a location, and no bookmark's history holds two
/// records of one application.
pub open spec fn well_keyed(s: Seq<BookmarkModel>) -> bool {
    &&& forall|j: int, k: int| 0 <= j < k < s.len() ==> s[j].href != s[k].href
    &&& forall|j: int|
        0 <= j < s.len() && s[j].info is Some ==> distinct_names(
            #[trigger] s[j].info->0.applications,
        )
}

/// The registry after the accesses `es`, in order.
pub open spec fn merged_all(s: Seq<BookmarkModel>, es: Seq<AccessEventModel>) -> Seq<
    BookmarkModel,
>
    decreases es.len(),
{
    if es.len() == 0 {
        s
    } else {
        merged(merged_all(s, es.drop_last()), es.last())
    }
}

/// Recording a use keeps application names distinct.
pub proof fn lemma_used_by_distinct(
    s: Seq<ApplicationModel>,
    name: Seq<char>,
    command: Seq<char>,
    at: Seq<char>,
)
    requires
        distinct_names(s),
    ensures
        distinct_names(used_by(s, name, command, at)),
{
    lemma_name_index(s, name);
}

/// One access keeps a registry well keyed.
pub proof fn law_merge_keeps_keys_unique(s: Seq<BookmarkModel>, e: AccessEventModel)
    requires
        well_keyed(s),
    ensures
        well_keyed(merged(s, e)),
{
    lemma_href_index(s, e.href);
    let i = href_index(s, e.href);
    let r = merged(s, e);
    if i >= 0 {
        let b = s[i];
        if b.info is Some {
            lemma_used_by_distinct(b.info->0.applications, e.app_name, e.command, e.modified);
        }
        assert forall|j: int| 0 <= j < r.len() && r[j].info is Some implies distinct_names(
            #[trigger] r[j].info->0.applications,
        ) by {
            if j != i {
                assert(r[j] == s[j]);
            }
        }
    } else {
        assert(distinct_names(created(e).info->0.applications));
        assert forall|j: int| 0 <= j < r.len() && r[j].info is Some implies distinct_names(
            #[trigger] r[j].info->0.applications,
        ) by {
            if j < s.len() {
                assert(r[j] == s[j]);
            }
        }
    }
}

/// Any sequence of accesses keeps a well-keyed registry (the empty one, for
/// instance) well keyed: no two bookmarks share a location, and no two
/// application records of one bookmark share a name.
pub proof fn law_keys_stay_unique(s: Seq<BookmarkModel>, es: Seq<AccessEventModel>)
    requires
        well_keyed(s),
    ensures
        well_keyed(merged_all(s, es)),
    decreases es.len(),
{
    if es.len() > 0 {
        law_keys_stay_unique(s, es.drop_last());
        law_merge_keeps_keys_unique(merged_all(s, es.drop_last()), es.last());
    }
}

/// An access to a file never seen before appends exactly one bookmark,
/// located at the file, whose history holds one record of the application
/// with a count of one.
pub proof fn law_new_entry(s: Seq<BookmarkModel>, e: AccessEventModel)
    requires
        href_index(s, e.href) < 0,
    ensures
        merged(s, e).len() == s.len() + 1,
        merged(s, e).subrange(0, s.len() as int) == s,
        merged(s, e).last().href == e.href,
        forall|k: int| 0 <= k < s.len() ==> merged(s, e)[k].href != e.href,
        merged(s, e).last().info matches Some(m) && m.applications.len() == 1
            && m.applications[0].name == e.app_name && m.applications[0].count == 1,
{
    lemma_href_index(s, e.href);
    assert(merged(s, e).subrange(0, s.len() as int) =~= s);
}

/// Two accesses by one application to a file never seen before leave one
/// bookmark for it, with one record of the application, a count of two, and
/// the second access's timestamp.
pub proof fn law_second_access_increments(
    s: Seq<BookmarkModel>,
    e1: AccessEventModel,
    e2: AccessEventModel,
)
    requires
        href_index(s, e1.href) < 0,
        e2.href == e1.href,
        e2.app_name == e1.app_name,
    ensures
        merged(merged(s, e1), e2).len() == s.len() + 1,
        forall|k: int| 0 <= k < s.len() ==> merged(merged(s, e1), e2)[k].href != e1.href,
        merged(merged(s, e1), e2).last().href == e1.href,
        merged(merged(s, e1), e2).last().info matches Some(m) && m.applications.len() == 1
            && m.applications[0].name == e1.app_name && m.applications[0].count == 2
            && m.applications[0].modified == e2.modified,
{
    lemma_href_index(s, e1.href);
    let r1 = merged(s, e1);
    lemma_href_index(r1, e1.href);
    assert(href_index(r1, e1.href) == s.len());
    let apps = r1.last().info->0.applications;
    lemma_name_index(apps, e1.app_name);
    assert(name_index(apps, e1.app_name) == 0);
}

/// An access never moves a bookmark: the one it touches stays where it was,
/// with the others around it unchanged, and a new one goes at the end.
pub proof fn law_position_kept(s: Seq<BookmarkModel>, e: AccessEventModel)
    ensures
        href_index(s, e.href) >= 0 ==> {
            let i = href_index(s, e.href);
            &&& merged(s, e).len() == s.len()
            &&& merged(s, e)[i] == touched(s[i], e)
            &&& merged(s, e)[i].href == s[i].href
            &&& forall|k: int| 0 <= k < s.len() && k != i ==> merged(s, e)[k] == s[k]
        },
        href_index(s, e.href) < 0 ==> merged(s, e) == s.push(created(e)),
{
    lemma_href_index(s, e.href);
}

/// Two writers that load the same registry and each fold in one access to a
/// different, never-seen file: the registry that the second one writes holds
/// its own access and no trace of the first one's.
pub proof fn law_lost_update(s: Seq<BookmarkModel>, e1: AccessEventModel, e2: AccessEventModel)
    requires
        href_index(s, e1.href) < 0,
        e1.href != e2.href,
    ensures
        href_index(merged(s, e1), e1.href) >= 0,
        href_index(merged(s, e2), e2.href) >= 0,
        href_index(merged(s, e2), e1.href) < 0,
{
    lemma_href_index(s, e1.href);
    lemma_href_index(s, e2.href);
    lemma_href_index(merged(s, e1), e1.href);
    lemma_href_index(merged(s, e2), e2.href);
    lemma_href_index(merged(s, e2), e1.href);
    let r = merged(s, e2);
    let i2 = href_index(s, e2.href);
    if i2 >= 0 {
        assert(r[i2].href == e2.href);
    } else {
        assert(r[s.len() as int].href == e2.href);
    }
    assert forall|k: int| 0 <= k < r.len() implies r[k].href != e1.href by {
        if k < s.len() && href_index(s, e2.href) >= 0 && k == href_index(s, e2.href) {
            assert(r[k].href == s[k].href);
        }
    }
}

} // verus!
