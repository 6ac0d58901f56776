//! Miniflux, the feed source: the feeds and entries it serves, how entries
//! are laid out for the prompt, and how its answers are judged.

use vstd::prelude::*;

use crate::error::Error;
use crate::text::{i64_text, int_text, join, joined, xml_escaped};

verus! {

/// A feed on the Miniflux server.
#[derive(Debug)]
pub struct Feed {
    /// Miniflux' feed id, used to ask for the feed's entries.
    pub id: i64,
    /// Display title, what topics match against.
    pub title: String,
}

/// The feed an entry came from, as nested inside [`Entry`].
#[derive(Debug)]
pub struct EntryFeed {
    /// Title of the feed the entry came from.
    pub title: String,
}

/// An entry on the Miniflux server.
#[derive(Debug)]
pub struct Entry {
    /// Miniflux' entry id, what the model cites highlights with.
    pub id: i64,
    /// Headline.
    pub title: String,
    /// Body, as HTML.
    pub content: String,
    /// Link back to the article, cited in the report.
    pub url: String,
    /// RFC 3339 timestamp, passed through to the prompt as-is.
    pub published_at: String,
    /// The feed it came from.
    pub feed: EntryFeed,
}

/// The body of `PUT /v1/entries`.
#[derive(Debug)]
pub struct StatusUpdate {
    /// Entries to update.
    pub entry_ids: Vec<i64>,
    /// New status; always `"read"` here.
    pub status: String,
}

impl Feed {
    /// A copy of this feed.
    pub fn copy(&self) -> (res: Feed)
        ensures
            res.id == self.id,
            res.title@ == self.title@,
    {
        Feed { id: self.id, title: self.title.clone() }
    }
}

/// Escapes the XML metacharacters `&`, `<` and `>`, so text cannot close the
/// block it sits in.
pub fn escape(s: &str) -> (res: String)
    ensures
        res@ == xml_escaped(s@),
{
    let mut out = String::new();
    for c in it: s.chars()
        invariant
            it.seq() == s@,
            out@ == xml_escaped(s@.take(it.index() as int)),
    {
        let ghost i = it.index() as int;
        assert(s@.take(i + 1).drop_last() == s@.take(i));
        proof {
            reveal_strlit("&amp;");
            reveal_strlit("&lt;");
            reveal_strlit("&gt;");
        }
        if c == '&' {
            out.append("&amp;");
        } else if c == '<' {
            out.append("&lt;");
        } else if c == '>' {
            out.append("&gt;");
        } else {
            out.push(c);
        }
    }
    assert(s@.take(s@.len() as int) == s@);
    out
}

/// One entry as an XML-ish block for the prompt. Every text that comes from
/// the feed is escaped, so none of it can open or close a tag; the `id`
/// attribute is what the model cites highlights with.
pub open spec fn entry_block(e: Entry) -> Seq<char> {
    "<entry id=\""@ + int_text(e.id as int) + "\" feed=\""@ + xml_escaped(e.feed.title@) + "\" published=\""@
        + xml_escaped(e.published_at@) + "\">\n<title>"@ + xml_escaped(e.title@) + "</title>\n<content>"@
        + xml_escaped(e.content@) + "</content>\n</entry>"@
}

/// Every entry's block, one per line.
pub open spec fn rendered_entries(entries: Seq<Entry>) -> Seq<char> {
    joined(entries.map_values(|e: Entry| entry_block(e)), "\n"@)
}

fn render_entry(e: &Entry) -> (res: String)
    ensures
        res@ == entry_block(*e),
{
    let mut out = String::from_str("<entry id=\"");
    out.append(i64_text(e.id).as_str());
    out.append("\" feed=\"");
    out.append(escape(e.feed.title.as_str()).as_str());
    out.append("\" published=\"");
    out.append(escape(e.published_at.as_str()).as_str());
    out.append("\">\n<title>");
    out.append(escape(e.title.as_str()).as_str());
    out.append("</title>\n<content>");
    out.append(escape(e.content.as_str()).as_str());
    out.append("</content>\n</entry>");
    out
}

/// Lays entries out as XML-ish blocks for the prompt, one per line.
pub fn render_entries(entries: &[Entry]) -> (res: String)
    ensures
        res@ == rendered_entries(entries@),
{
    let mut blocks: Vec<String> = Vec::new();
    let mut i: usize = 0;
    while i < entries.len()
        invariant
            i <= entries.len(),
            blocks@.len() == i,
            forall|k: int| 0 <= k < i ==> #[trigger] blocks@[k]@ == entry_block(entries@[k]),
        decreases entries.len() - i,
    {
        let block = render_entry(&entries[i]);
        blocks.push(block);
        i = i + 1;
    }
    assert(blocks@.map_values(|x: String| x@) =~= entries@.map_values(|e: Entry| entry_block(e)));
    join(&blocks, "\n")
}

/// What an answer from Miniflux comes to: its body when the status is the
/// expected one, else the server's own error message, or the status itself
/// when the body carried none.
pub open spec fn judged_response(
    status: u16,
    expected: u16,
    status_text: Seq<char>,
    error_message: Option<Seq<char>>,
    body: Seq<char>,
) -> Result<Seq<char>, Seq<char>> {
    if status != expected {
        Err(match error_message {
            Some(m) => m,
            None => status_text,
        })
    } else {
        Ok(body)
    }
}

/// Checks an answer against the `expected` status, handing back its body on
/// success and Miniflux' own error message otherwise. `status_text` is the
/// status as displayed (`"401 Unauthorized"`); `error_message` is the
/// `error_message` field of the body, when the body has one.
///
/// # Errors
///
/// [`Error::MinifluxApi`] when `status` is not `expected`.
pub fn check_response(
    status: u16,
    expected: u16,
    status_text: String,
    error_message: Option<String>,
    body: String,
) -> (res: Result<String, Error>)
    ensures
        res is Ok <==> status == expected,
        res matches Ok(b) ==> b@ == body@,
        res matches Err(e) ==> e is MinifluxApi,
        res matches Err(Error::MinifluxApi(m)) ==> Err::<Seq<char>, Seq<char>>(m@) == judged_response(
            status,
            expected,
            status_text@,
            match error_message {
                Some(x) => Some(x@),
                None => None,
            },
            body@,
        ),
{
    if status != expected {
        let message = match error_message {
            Some(m) => m,
            None => status_text,
        };
        return Err(Error::MinifluxApi(message));
    }
    Ok(body)
}

/// The path of a feed's entries, `v1/feeds/{feed}/entries`.
pub fn entries_path(feed: i64) -> (res: String)
    ensures
        res@ == "v1/feeds/"@ + int_text(feed as int) + "/entries"@,
{
    let mut out = String::from_str("v1/feeds/");
    out.append(i64_text(feed).as_str());
    out.append("/entries");
    out
}

/// The query asking for entries published after the `after` unix timestamp,
/// newest 200 at most.
pub fn entries_query(after: i64) -> (res: Vec<(String, String)>)
    ensures
        res@.len() == 2,
        res@[0].0@ == "limit"@,
        res@[0].1@ == "200"@,
        res@[1].0@ == "after"@,
        res@[1].1@ == int_text(after as int),
{
    let mut out: Vec<(String, String)> = Vec::new();
    out.push((String::from_str("limit"), String::from_str("200")));
    out.push((String::from_str("after"), i64_text(after)));
    out
}

/// The update marking `entry_ids` as read, or `None` when there is nothing
/// to mark and no request is needed.
pub fn read_update(entry_ids: &[i64]) -> (res: Option<StatusUpdate>)
    ensures
        res is None <==> entry_ids@.len() == 0,
        res matches Some(u) ==> u.entry_ids@ == entry_ids@ && u.status@ == "read"@,
{
    if entry_ids.len() == 0 {
        return None;
    }
    let mut ids: Vec<i64> = Vec::new();
    let mut i: usize = 0;
    while i < entry_ids.len()
        invariant
            i <= entry_ids.len(),
            ids@ == entry_ids@.take(i as int),
        decreases entry_ids.len() - i,
    {
        ids.push(entry_ids[i]);
        i = i + 1;
        assert(ids@ =~= entry_ids@.take(i as int));
    }
    assert(entry_ids@.take(i as int) =~= entry_ids@);
    Some(StatusUpdate { entry_ids: ids, status: String::from_str("read") })
}

} // verus!
