//! The XML form of the registry, written element by element in the fixed
//! order that desktop environments read.
use vstd::prelude::*;

use crate::model::{
    Application, ApplicationModel, Bookmark, BookmarkModel, Error, Metadata, MetadataModel,
    RecentlyUsed, applications_view, bookmarks_view,
};

verus! {

/// The text that stands for `c` in an attribute value.
pub open spec fn escaped_char(c: char) -> Seq<char> {
    if c == '<' {
        "&lt;"@
    } else if c == '>' {
        "&gt;"@
    } else if c == '&' {
        "&amp;"@
    } else if c == '\'' {
        "&apos;"@
    } else if c == '"' {
        "&quot;"@
    } else {
        seq![c]
    }
}

/// An attribute value with each of `< > & ' "` replaced by its entity.
pub open spec fn escaped(s: Seq<char>) -> Seq<char>
    decreases s.len(),
{
    if s.len() == 0 {
        seq![]
    } else {
        escaped(s.drop_last()) + escaped_char(s.last())
    }
}

/// The decimal digits of `n`, with no leading zero.
pub open spec fn decimal(n: nat) -> Seq<char>
    decreases n,
{
    if n < 10 {
        seq!["0123456789"@[n as int]]
    } else {
        decimal(n / 10) + seq!["0123456789"@[(n % 10) as int]]
    }
}

/// Relies on quick_xml::escape::escape, which replaces `<`, `>`, `&`, `'`
/// and `"` by `&lt;`, `&gt;`, `&amp;`, `&apos;` and `&quot;` and keeps every
/// other character.
#[verifier::external_body]
fn escape_value(s: &str) -> (r: String)
    ensures
        r@ == escaped(s@),
{
    quick_xml::escape::escape(s).into_owned()
}

/// Relies on `u32`'s `ToString` (through `Display`): its decimal digits.
#[verifier::external_body]
fn count_text(n: u32) -> (r: String)
    ensures
        r@ == decimal(n as nat),
{
    n.to_string()
}

/// One application record: an empty element with its four attributes.
pub open spec fn application_xml(a: ApplicationModel) -> Seq<char> {
    "<bookmark:application name=\""@ + escaped(a.name) + "\" exec=\""@ + escaped(a.command)
        + "\" modified=\""@ + escaped(a.modified) + "\" count=\""@ + decimal(a.count as nat)
        + "\"/>"@
}

/// The application records, in order.
pub open spec fn applications_xml(s: Seq<ApplicationModel>) -> Seq<char>
    decreases s.len(),
{
    if s.len() == 0 {
        seq![]
    } else {
        applications_xml(s.drop_last()) + application_xml(s.last())
    }
}

/// The MIME type element, present only with a MIME type.
pub open spec fn mime_xml(m: Option<Seq<char>>) -> Seq<char> {
    match m {
        Some(t) => "<mime:mime-type type=\""@ + escaped(t) + "\"/>"@,
        None => seq![],
    }
}

/// The `info` element around the metadata.
pub open spec fn info_xml(m: MetadataModel) -> Seq<char> {
    "<info><metadata owner=\""@ + escaped(m.owner) + "\">"@ + mime_xml(m.mime_type)
        + "<bookmark:applications>"@ + applications_xml(m.applications)
        + "</bookmark:applications></metadata></info>"@
}

/// One bookmark: its four attributes, and its `info` element if it has one.
pub open spec fn bookmark_xml(b: BookmarkModel) -> Seq<char> {
    "<bookmark href=\""@ + escaped(b.href) + "\" added=\""@ + escaped(b.added)
        + "\" modified=\""@ + escaped(b.modified) + "\" visited=\""@ + escaped(b.visited)
        + "\">"@ + match b.info {
        Some(m) => info_xml(m),
        None => seq![],
    } + "</bookmark>"@
}

/// The bookmarks, in order.
pub open spec fn bookmarks_xml(s: Seq<BookmarkModel>) -> Seq<char>
    decreases s.len(),
{
    if s.len() == 0 {
        seq![]
    } else {
        bookmarks_xml(s.drop_last()) + bookmark_xml(s.last())
    }
}

/// The XML declaration and the opening tag of the root with its namespaces.
pub open spec fn document_head() -> Seq<char> {
    "<?xml version=\"1.0\" encoding=\"UTF-8\"?>\n"@
        + "<xbel version=\"1.0\" xmlns:bookmark=\"http://www.freedesktop.org/standards/desktop-bookmarks\" xmlns:mime=\"http://www.freedesktop.org/standards/shared-mime-info\">"@
}

/// The whole registry file.
pub open spec fn document_xml(s: Seq<BookmarkModel>) -> Seq<char> {
    document_head() + bookmarks_xml(s) + "</xbel>"@
}

fn write_application(out: &mut String, a: &Application)
    ensures
        final(out)@ == old(out)@ + application_xml(a@),
{
    out.append("<bookmark:application name=\"");
    out.append(escape_value(a.name.as_str()).as_str());
    out.append("\" exec=\"");
    out.append(escape_value(a.command.as_str()).as_str());
    out.append("\" modified=\"");
    out.append(escape_value(a.modified.as_str()).as_str());
    out.append("\" count=\"");
    out.append(count_text(a.count).as_str());
    out.append("\"/>");
    assert(final(out)@ =~= old(out)@ + application_xml(a@));
}

fn write_info(out: &mut String, m: &Metadata)
    ensures
        final(out)@ == old(out)@ + info_xml(m@),
{
    out.append("<info><metadata owner=\"");
    out.append(escape_value(m.owner.as_str()).as_str());
    out.append("\">");
    match &m.mime_type {
        Some(t) => {
            out.append("<mime:mime-type type=\"");
            out.append(escape_value(t.mime_type.as_str()).as_str());
            out.append("\"/>");
        },
        None => {},
    }
    out.append("<bookmark:applications>");
    let ghost before = out@;
    let apps = &m.applications.applications;
    let mut i: usize = 0;
    while i < apps.len()
        invariant
            i <= apps.len(),
            out@ == before + applications_xml(applications_view(apps@).subrange(0, i as int)),
        decreases apps.len() - i,
    {
        let ghost s = applications_view(apps@);
        write_application(out, &apps[i]);
        assert(s.subrange(0, i + 1).drop_last() =~= s.subrange(0, i as int));
        i += 1;
    }
    assert(applications_view(apps@).subrange(0, i as int) =~= applications_view(apps@));
    out.append("</bookmark:applications></metadata></info>");
    assert(final(out)@ =~= old(out)@ + info_xml(m@));
}

fn write_bookmark(out: &mut String, b: &Bookmark)
    ensures
        final(out)@ == old(out)@ + bookmark_xml(b@),
{
    out.append("<bookmark href=\"");
    out.append(escape_value(b.href.as_str()).as_str());
    out.append("\" added=\"");
    out.append(escape_value(b.added.as_str()).as_str());
    out.append("\" modified=\"");
    out.append(escape_value(b.modified.as_str()).as_str());
    out.append("\" visited=\"");
    out.append(escape_value(b.visited.as_str()).as_str());
    out.append("\">");
    match &b.info {
        Some(info) => write_info(out, &info.metadata),
        None => {},
    }
    out.append("</bookmark>");
    assert(final(out)@ =~= old(out)@ + bookmark_xml(b@));
}

/// Renders the registry as the text of a `recently-used.xbel` file.
///
/// Attributes come in their fixed order, optional elements appear only when
/// present, and every attribute value is escaped. Rendering never fails.
pub fn custom_write(recently_used: RecentlyUsed) -> (r: Result<String, Error>)
    ensures
        r matches Ok(text) && text@ == document_xml(recently_used@),
{
    let mut out = String::new();
    out.append("<?xml version=\"1.0\" encoding=\"UTF-8\"?>\n");
    out.append(
        "<xbel version=\"1.0\" xmlns:bookmark=\"http://www.freedesktop.org/standards/desktop-bookmarks\" xmlns:mime=\"http://www.freedesktop.org/standards/shared-mime-info\">",
    );
    let ghost before = out@;
    let bookmarks = &recently_used.bookmarks;
    let mut i: usize = 0;
    while i < bookmarks.len()
        invariant
            i <= bookmarks.len(),
            out@ == before + bookmarks_xml(bookmarks_view(bookmarks@).subrange(0, i as int)),
        decreases bookmarks.len() - i,
    {
        let ghost s = bookmarks_view(bookmarks@);
        write_bookmark(&mut out, &bookmarks[i]);
        assert(s.subrange(0, i + 1).drop_last() =~= s.subrange(0, i as int));
        i += 1;
    }
    assert(bookmarks_view(bookmarks@).subrange(0, i as int) =~= bookmarks_view(bookmarks@));
    out.append("</xbel>");
    assert(out@ =~= document_xml(recently_used@));
    Ok(out)
}

} // verus!
