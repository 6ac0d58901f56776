//! The report: one section per topic, written out as markdown and as a
//! self-contained HTML page.

use vstd::prelude::*;

use crate::claude::{Analysis, Highlight};
use crate::error::Error;
use crate::rss::Entry;
use crate::text::{
    has_substring, lemma_concat_at, lemma_found_between,
    concat, html_escaped, join, joined, nat_text, replace_all, replaced, split_on,
    split_text, trim, trimmed, usize_text,
};
use crate::time::{rfc2822_text, strftime_text, Timestamp, FILE_STAMP_FORMAT, LONG_DATE_FORMAT};
use crate::topic::Topic;

verus! {

/// One entry as it appears in a report's source list.
#[derive(Debug)]
pub struct Source {
    /// Miniflux entry id, matched against `Highlight::entry_ids`.
    pub id: i64,
    /// Entry title.
    pub title: String,
    /// Title of the feed it came from.
    pub feed: String,
    /// Link to the entry.
    pub url: String,
}

/// One topic's section: what was asked, what the model said, what it read.
#[derive(Debug)]
pub struct Briefing {
    /// The question put to the model.
    pub question: String,
    /// Start of the window these entries came from.
    pub since: Timestamp,
    /// The model's digest and highlights.
    pub analysis: Analysis,
    /// Every entry scanned, for the sources block and the highlight links.
    pub sources: Vec<Source>,
    /// How many entries were scanned.
    pub scanned: usize,
}

/// Escapes the characters that would otherwise break out of HTML text or a
/// quoted attribute: `&`, `<`, `>`, `"` and `'`.
pub fn escape(raw: &str) -> (res: String)
    ensures
        res@ == html_escaped(raw@),
{
    let mut out = String::new();
    for c in it: raw.chars()
        invariant
            it.seq() == raw@,
            out@ == html_escaped(raw@.take(it.index() as int)),
    {
        let ghost i = it.index() as int;
        assert(raw@.take(i + 1).drop_last() == raw@.take(i));
        proof {
            reveal_strlit("&amp;");
            reveal_strlit("&lt;");
            reveal_strlit("&gt;");
            reveal_strlit("&quot;");
            reveal_strlit("&#39;");
        }
        if c == '&' {
            out.append("&amp;");
        } else if c == '<' {
            out.append("&lt;");
        } else if c == '>' {
            out.append("&gt;");
        } else if c == '"' {
            out.append("&quot;");
        } else if c == '\'' {
            out.append("&#39;");
        } else {
            out.push(c);
        }
    }
    assert(raw@.take(raw@.len() as int) == raw@);
    out
}

// ---------------------------------------------------------------- links

/// The first source with `id`, as a search from the front finds it.
pub open spec fn first_source(sources: Seq<Source>, id: i64) -> Option<Source>
    decreases sources.len(),
{
    if sources.len() == 0 {
        None
    } else if sources[0].id == id {
        Some(sources[0])
    } else {
        first_source(sources.drop_first(), id)
    }
}

/// A markdown link to a source.
pub open spec fn md_link(s: Source) -> Seq<char> {
    "[src]("@ + s.url@ + ")"@
}

/// An HTML link to a source.
pub open spec fn html_link(s: Source) -> Seq<char> {
    "<a href=\""@ + html_escaped(s.url@) + "\">src</a>"@
}

/// A link to a source, HTML or markdown.
pub open spec fn link_of(s: Source, html: bool) -> Seq<char> {
    if html { html_link(s) } else { md_link(s) }
}

/// The links of a highlight: for each cited id that names a source, a link
/// to the first source with that id; ids naming no source are dropped.
pub open spec fn links(ids: Seq<i64>, sources: Seq<Source>, html: bool) -> Seq<Seq<char>>
    decreases ids.len(),
{
    if ids.len() == 0 {
        seq![]
    } else {
        let rest = links(ids.drop_last(), sources, html);
        match first_source(sources, ids.last()) {
            Some(s) => rest.push(link_of(s, html)),
            None => rest,
        }
    }
}

/// Every link of a highlight points at an entry that was scanned: the report
/// never carries a URL the model made up, only those of the sources.
pub proof fn law_links_point_at_sources(ids: Seq<i64>, sources: Seq<Source>, html: bool)
    ensures
        forall|k: int| #![trigger links(ids, sources, html)[k]] 0 <= k < links(ids, sources, html).len() ==> exists|j: int|
            0 <= j < sources.len() && links(ids, sources, html)[k] == link_of(#[trigger] sources[j], html),
    decreases ids.len(),
{
    if ids.len() > 0 {
        law_links_point_at_sources(ids.drop_last(), sources, html);
        let rest = links(ids.drop_last(), sources, html);
        lemma_first_source_in(sources, ids.last());
        assert forall|k: int| #![trigger links(ids, sources, html)[k]] 0 <= k < links(ids, sources, html).len() implies exists|j: int|
            0 <= j < sources.len() && links(ids, sources, html)[k] == link_of(#[trigger] sources[j], html) by {
            if k < rest.len() {
                assert(links(ids, sources, html)[k] == rest[k]);
                let j = choose|j: int| 0 <= j < sources.len() && rest[k] == link_of(#[trigger] sources[j], html);
                assert(links(ids, sources, html)[k] == link_of(sources[j], html));
            } else {
                let j = choose|j: int| 0 <= j < sources.len() && first_source(sources, ids.last()) == Some(#[trigger] sources[j]);
                assert(links(ids, sources, html)[k] == link_of(sources[j], html));
            }
        }
    }
}

/// A source found by id is one of the sources, and carries that id.
pub proof fn lemma_first_source_in(sources: Seq<Source>, id: i64)
    ensures
        first_source(sources, id) matches Some(s) ==> s.id == id && exists|j: int| 0 <= j < sources.len() && first_source(sources, id) == Some(#[trigger] sources[j]),
    decreases sources.len(),
{
    if sources.len() > 0 {
        if sources[0].id != id {
            lemma_first_source_in(sources.drop_first(), id);
            if first_source(sources, id) is Some {
                let j = choose|j: int| 0 <= j < sources.drop_first().len() && first_source(sources.drop_first(), id) == Some(#[trigger] sources.drop_first()[j]);
                assert(sources.drop_first()[j] == sources[j + 1]);
            }
        }
    }
}

/// Some source carries `id` exactly when the search from the front finds one.
pub proof fn lemma_first_source_found(sources: Seq<Source>, id: i64)
    ensures
        first_source(sources, id) is Some <==> exists|j: int| 0 <= j < sources.len() && #[trigger] sources[j].id == id,
    decreases sources.len(),
{
    lemma_first_source_in(sources, id);
    if sources.len() > 0 && sources[0].id != id {
        lemma_first_source_found(sources.drop_first(), id);
        if exists|j: int| 0 <= j < sources.len() && #[trigger] sources[j].id == id {
            let j = choose|j: int| 0 <= j < sources.len() && #[trigger] sources[j].id == id;
            assert(j > 0);
            assert(sources.drop_first()[j - 1].id == id);
        }
        if first_source(sources.drop_first(), id) is Some {
            let j = choose|j: int| 0 <= j < sources.drop_first().len() && #[trigger] sources.drop_first()[j].id == id;
            assert(sources[j + 1].id == id);
        }
    } else if sources.len() > 0 {
        assert(sources[0].id == id);
    }
}

/// A highlight links every source it cites, in the order it cites them: one
/// link for each cited id that some source carries (to the first source
/// with that id), and none for an id no source carries.
pub proof fn law_every_cited_source_is_linked(ids: Seq<i64>, sources: Seq<Source>, html: bool)
    ensures
        links(ids, sources, html) == ids.filter(|id: i64| exists|j: int| 0 <= j < sources.len() && #[trigger] sources[j].id == id)
            .map_values(|id: i64| link_of(first_source(sources, id)->Some_0, html)),
        links(ids, sources, html).len() == ids.filter(|id: i64| exists|j: int| 0 <= j < sources.len() && #[trigger] sources[j].id == id).len(),
    decreases ids.len(),
{
    reveal(Seq::filter);
    if ids.len() > 0 {
        law_every_cited_source_is_linked(ids.drop_last(), sources, html);
        let pred = |id: i64| exists|j: int| 0 <= j < sources.len() && #[trigger] sources[j].id == id;
        let lf = |id: i64| link_of(first_source(sources, id)->Some_0, html);
        let sub = ids.drop_last().filter(pred);
        assert(ids.filter(pred) == if pred(ids.last()) { sub.push(ids.last()) } else { sub });
        lemma_first_source_found(sources, ids.last());
        assert(first_source(sources, ids.last()) is Some == pred(ids.last()));
        if pred(ids.last()) {
            assert(sub.push(ids.last()).map_values(lf) =~= sub.map_values(lf).push(lf(ids.last())));
        }
        assert(links(ids, sources, html) == ids.filter(pred).map_values(lf));
    }
}

fn find_source(sources: &Vec<Source>, id: i64) -> (res: Option<usize>)
    ensures
        res matches Some(i) ==> i < sources@.len() && first_source(sources@, id) == Some(sources@[i as int]),
        res is None ==> first_source(sources@, id) is None,
{
    let mut i: usize = 0;
    assert(sources@.skip(0) == sources@);
    while i < sources.len()
        invariant
            i <= sources.len(),
            first_source(sources@, id) == first_source(sources@.skip(i as int), id),
        decreases sources.len() - i,
    {
        if sources[i].id == id {
            return Some(i);
        }
        assert(sources@.skip(i as int).drop_first() =~= sources@.skip(i + 1));
        i = i + 1;
    }
    None
}

fn render_link(s: &Source, html: bool) -> (res: String)
    ensures
        res@ == link_of(*s, html),
{
    if html {
        let mut out = String::from_str("<a href=\"");
        out.append(escape(s.url.as_str()).as_str());
        out.append("\">src</a>");
        out
    } else {
        let mut out = String::from_str("[src](");
        out.append(s.url.as_str());
        out.append(")");
        out
    }
}

fn render_links(ids: &[i64], sources: &Vec<Source>, html: bool) -> (res: String)
    ensures
        res@ == joined(links(ids@, sources@, html), " "@),
{
    let mut items: Vec<String> = Vec::new();
    let mut k: usize = 0;
    while k < ids.len()
        invariant
            k <= ids.len(),
            items@.map_values(|x: String| x@) == links(ids@.take(k as int), sources@, html),
        decreases ids.len() - k,
    {
        let ghost prev = items@.map_values(|x: String| x@);
        assert(ids@.take(k + 1).drop_last() =~= ids@.take(k as int));
        match find_source(sources, ids[k]) {
            Some(i) => {
                let link = render_link(&sources[i], html);
                items.push(link);
                assert(items@.map_values(|x: String| x@) =~= prev.push(link@));
            },
            None => {},
        }
        k = k + 1;
    }
    assert(ids@.take(k as int) =~= ids@);
    join(&items, " ")
}

/// Laying one more piece after the others extends their concatenation by it.
pub proof fn lemma_concat_push(items: Seq<Seq<char>>, x: Seq<char>)
    ensures
        concat(items.push(x)) == concat(items) + x,
{
    assert(items.push(x).drop_last() =~= items);
}

// ---------------------------------------------------------------- markdown

/// One highlight as a markdown list item, with links to its sources.
pub open spec fn md_highlight(h: Highlight, sources: Seq<Source>) -> Seq<char> {
    "- **"@ + h.headline@ + "** — "@ + h.detail@ + " "@ + joined(links(h.entry_ids@, sources, false), " "@) + "\n"@
}

/// One source as a markdown list item.
pub open spec fn md_source(s: Source) -> Seq<char> {
    "- ["@ + s.title@ + "]("@ + s.url@ + ") — "@ + s.feed@ + "\n\n"@
}

/// One topic as a markdown section.
pub open spec fn briefing_markdown(b: Briefing) -> Seq<char> {
    "## "@ + b.question@ + "\n\n_Since "@ + rfc2822_text(b.since@.0, b.since@.1) + " · "@
        + nat_text(b.scanned as nat) + " entries scanned_\n\n"@ + b.analysis.digest@
        + "\n\n**Highlights**\n\n"@
        + concat(b.analysis.highlights@.map_values(|h: Highlight| md_highlight(h, b.sources@)))
        + "\n<details><summary>Sources — "@ + nat_text(b.scanned as nat) + " entries</summary>\n\n"@
        + concat(b.sources@.map_values(|s: Source| md_source(s))) + "</details>\n"@
}

fn md_highlights(b: &Briefing) -> (res: String)
    ensures
        res@ == concat(b.analysis.highlights@.map_values(|h: Highlight| md_highlight(h, b.sources@))),
{
    let hs = &b.analysis.highlights;
    let ghost f = |h: Highlight| md_highlight(h, b.sources@);
    let mut out = String::new();
    let mut k: usize = 0;
    while k < hs.len()
        invariant
            k <= hs.len(),
            f == (|h: Highlight| md_highlight(h, b.sources@)),
            out@ == concat(hs@.take(k as int).map_values(f)),
        decreases hs.len() - k,
    {
        let h = &hs[k];
        let links = render_links(h.entry_ids.as_slice(), &b.sources, false);
        out.append("- **");
        out.append(h.headline.as_str());
        out.append("** — ");
        out.append(h.detail.as_str());
        out.append(" ");
        out.append(links.as_str());
        out.append("\n");
        proof {
            assert(hs@.take(k + 1).map_values(f) =~= hs@.take(k as int).map_values(f).push(f(hs@[k as int])));
            lemma_concat_push(hs@.take(k as int).map_values(f), f(hs@[k as int]));
        }
        k = k + 1;
    }
    assert(hs@.take(k as int) =~= hs@);
    out
}

fn md_sources(b: &Briefing) -> (res: String)
    ensures
        res@ == concat(b.sources@.map_values(|s: Source| md_source(s))),
{
    let ss = &b.sources;
    let ghost f = |s: Source| md_source(s);
    let mut out = String::new();
    let mut k: usize = 0;
    while k < ss.len()
        invariant
            k <= ss.len(),
            f == (|s: Source| md_source(s)),
            out@ == concat(ss@.take(k as int).map_values(f)),
        decreases ss.len() - k,
    {
        let s = &ss[k];
        out.append("- [");
        out.append(s.title.as_str());
        out.append("](");
        out.append(s.url.as_str());
        out.append(") — ");
        out.append(s.feed.as_str());
        out.append("\n\n");
        proof {
            assert(ss@.take(k + 1).map_values(f) =~= ss@.take(k as int).map_values(f).push(f(ss@[k as int])));
            lemma_concat_push(ss@.take(k as int).map_values(f), f(ss@[k as int]));
        }
        k = k + 1;
    }
    assert(ss@.take(k as int) =~= ss@);
    out
}

impl Briefing {
    /// Renders one topic as a markdown section.
    pub fn render(&self) -> (res: String)
        ensures
            res@ == briefing_markdown(*self),
    {
        let scanned = usize_text(self.scanned);
        let mut out = String::from_str("## ");
        out.append(self.question.as_str());
        out.append("\n\n_Since ");
        out.append(self.since.to_rfc2822().as_str());
        out.append(" · ");
        out.append(scanned.as_str());
        out.append(" entries scanned_\n\n");
        out.append(self.analysis.digest.as_str());
        out.append("\n\n**Highlights**\n\n");
        out.append(md_highlights(self).as_str());
        out.append("\n<details><summary>Sources — ");
        out.append(scanned.as_str());
        out.append(" entries</summary>\n\n");
        out.append(md_sources(self).as_str());
        out.append("</details>\n");
        out
    }
}


// ---------------------------------------------------------------- html

/// One digest paragraph as HTML, trimmed and escaped.
pub open spec fn html_paragraph(p: Seq<char>) -> Seq<char> {
    "<p>"@ + html_escaped(trimmed(p)) + "</p>\n"@
}

/// One highlight as an HTML list item, with links to its sources.
pub open spec fn html_highlight(h: Highlight, sources: Seq<Source>) -> Seq<char> {
    "<li><strong>"@ + html_escaped(h.headline@) + "</strong> "@ + html_escaped(h.detail@)
        + " <span class=\"links\">"@ + joined(links(h.entry_ids@, sources, true), " "@) + "</span></li>\n"@
}

/// One source as an HTML list item.
pub open spec fn html_source(s: Source) -> Seq<char> {
    "<li><a href=\""@ + html_escaped(s.url@) + "\">"@ + html_escaped(s.title@) + "</a> <span class=\"feed\">"@
        + html_escaped(s.feed@) + "</span></li>\n"@
}

/// One topic as an HTML section anchored on `index`.
pub open spec fn briefing_html(b: Briefing, index: nat) -> Seq<char> {
    "<section id=\"topic-"@ + nat_text(index) + "\">\n<h2>"@ + html_escaped(b.question@)
        + "</h2>\n<p class=\"meta\">Since "@ + html_escaped(rfc2822_text(b.since@.0, b.since@.1)) + " · "@
        + nat_text(b.scanned as nat) + " entries scanned</p>\n"@
        + concat(split_on(b.analysis.digest@, "\n\n"@).map_values(|p: Seq<char>| html_paragraph(p)))
        + "<h3>Highlights</h3>\n<ul class=\"highlights\">\n"@
        + concat(b.analysis.highlights@.map_values(|h: Highlight| html_highlight(h, b.sources@)))
        + "</ul>\n"@
        + "<details>\n<summary>Sources — "@ + nat_text(b.scanned as nat) + " entries</summary>\n<ul class=\"sources\">\n"@
        + concat(b.sources@.map_values(|s: Source| html_source(s)))
        + "</ul>\n</details>\n</section>\n"@
}

fn html_paragraphs(digest: &str) -> (res: String)
    ensures
        res@ == concat(split_on(digest@, "\n\n"@).map_values(|p: Seq<char>| html_paragraph(p))),
{
    proof {
        reveal_strlit("\n\n");
    }
    let parts = split_text(digest, "\n\n");
    let ghost pieces = split_on(digest@, "\n\n"@);
    let ghost f = |p: Seq<char>| html_paragraph(p);
    assert(parts@.map_values(|x: String| x@) == pieces);
    let mut out = String::new();
    let mut k: usize = 0;
    while k < parts.len()
        invariant
            k <= parts.len(),
            parts@.map_values(|x: String| x@) == pieces,
            f == (|p: Seq<char>| html_paragraph(p)),
            out@ == concat(pieces.take(k as int).map_values(f)),
        decreases parts.len() - k,
    {
        assert(parts@[k as int]@ == pieces[k as int]);
        out.append("<p>");
        out.append(escape(trim(parts[k].as_str()).as_str()).as_str());
        out.append("</p>\n");
        proof {
            assert(pieces.take(k + 1).map_values(f) =~= pieces.take(k as int).map_values(f).push(f(pieces[k as int])));
            lemma_concat_push(pieces.take(k as int).map_values(f), f(pieces[k as int]));
        }
        k = k + 1;
    }
    assert(pieces.take(k as int) =~= pieces);
    out
}

fn html_highlights(b: &Briefing) -> (res: String)
    ensures
        res@ == concat(b.analysis.highlights@.map_values(|h: Highlight| html_highlight(h, b.sources@))),
{
    let hs = &b.analysis.highlights;
    let ghost f = |h: Highlight| html_highlight(h, b.sources@);
    let mut out = String::new();
    let mut k: usize = 0;
    while k < hs.len()
        invariant
            k <= hs.len(),
            f == (|h: Highlight| html_highlight(h, b.sources@)),
            out@ == concat(hs@.take(k as int).map_values(f)),
        decreases hs.len() - k,
    {
        let h = &hs[k];
        let links = render_links(h.entry_ids.as_slice(), &b.sources, true);
        out.append("<li><strong>");
        out.append(escape(h.headline.as_str()).as_str());
        out.append("</strong> ");
        out.append(escape(h.detail.as_str()).as_str());
        out.append(" <span class=\"links\">");
        out.append(links.as_str());
        out.append("</span></li>\n");
        proof {
            assert(hs@.take(k + 1).map_values(f) =~= hs@.take(k as int).map_values(f).push(f(hs@[k as int])));
            lemma_concat_push(hs@.take(k as int).map_values(f), f(hs@[k as int]));
        }
        k = k + 1;
    }
    assert(hs@.take(k as int) =~= hs@);
    out
}

fn html_sources(b: &Briefing) -> (res: String)
    ensures
        res@ == concat(b.sources@.map_values(|s: Source| html_source(s))),
{
    let ss = &b.sources;
    let ghost f = |s: Source| html_source(s);
    let mut out = String::new();
    let mut k: usize = 0;
    while k < ss.len()
        invariant
            k <= ss.len(),
            f == (|s: Source| html_source(s)),
            out@ == concat(ss@.take(k as int).map_values(f)),
        decreases ss.len() - k,
    {
        let s = &ss[k];
        out.append("<li><a href=\"");
        out.append(escape(s.url.as_str()).as_str());
        out.append("\">");
        out.append(escape(s.title.as_str()).as_str());
        out.append("</a> <span class=\"feed\">");
        out.append(escape(s.feed.as_str()).as_str());
        out.append("</span></li>\n");
        proof {
            assert(ss@.take(k + 1).map_values(f) =~= ss@.take(k as int).map_values(f).push(f(ss@[k as int])));
            lemma_concat_push(ss@.take(k as int).map_values(f), f(ss@[k as int]));
        }
        k = k + 1;
    }
    assert(ss@.take(k as int) =~= ss@);
    out
}

impl Briefing {
    /// Renders one topic as an HTML section, anchored on `index` for the
    /// index links at the top of the document.
    pub fn render_html(&self, index: usize) -> (res: String)
        ensures
            res@ == briefing_html(*self, index as nat),
    {
        let scanned = usize_text(self.scanned);
        let mut out = String::from_str("<section id=\"topic-");
        out.append(usize_text(index).as_str());
        out.append("\">\n<h2>");
        out.append(escape(self.question.as_str()).as_str());
        out.append("</h2>\n<p class=\"meta\">Since ");
        out.append(escape(self.since.to_rfc2822().as_str()).as_str());
        out.append(" · ");
        out.append(scanned.as_str());
        out.append(" entries scanned</p>\n");
        out.append(html_paragraphs(self.analysis.digest.as_str()).as_str());
        out.append("<h3>Highlights</h3>\n<ul class=\"highlights\">\n");
        out.append(html_highlights(self).as_str());
        out.append("</ul>\n");
        out.append("<details>\n<summary>Sources — ");
        out.append(scanned.as_str());
        out.append(" entries</summary>\n<ul class=\"sources\">\n");
        out.append(html_sources(self).as_str());
        out.append("</ul>\n</details>\n</section>\n");
        out
    }
}


// ---------------------------------------------------------------- report

/// Every topic's briefing, ready to write out.
#[derive(Debug)]
pub struct Report {
    /// One per topic, in the order they were added.
    pub briefings: Vec<Briefing>,
    /// Output directory.
    pub output_dir: String,
}

/// A rendered report: its file names and contents, and the instant it was
/// stamped with.
#[derive(Debug)]
pub struct ReportFiles {
    /// When the report was generated.
    pub now: Timestamp,
    /// `report_<stamp>.md`.
    pub markdown_name: String,
    /// The markdown report.
    pub markdown: String,
    /// `report_<stamp>.html`.
    pub html_name: String,
    /// The HTML report.
    pub html: String,
}

/// An entry as it appears in the source list.
pub open spec fn source_of(e: Entry) -> Source {
    Source { id: e.id, title: e.title, feed: e.feed.title, url: e.url }
}

/// The whole report as markdown.
pub open spec fn report_markdown(briefings: Seq<Briefing>, now: (i64, u32), model: Seq<char>) -> Seq<char> {
    "# Report — "@ + rfc2822_text(now.0, now.1) + "\n\n_"@ + model + "_\n\n"@
        + concat(briefings.map_values(|b: Briefing| briefing_markdown(b) + "\n"@))
}

/// One entry of the index at the top of the HTML report.
pub open spec fn nav_item(index: nat, b: Briefing) -> Seq<char> {
    "<li><a href=\"#topic-"@ + nat_text(index) + "\">"@ + html_escaped(b.question@) + "</a></li>\n"@
}

/// The body of the HTML report: the index, then every section.
pub open spec fn report_body(briefings: Seq<Briefing>) -> Seq<char> {
    "<nav>\n<ol>\n"@ + concat(Seq::new(briefings.len(), |i: int| nav_item(i as nat, briefings[i])))
        + "</ol>\n</nav>\n"@
        + concat(Seq::new(briefings.len(), |i: int| briefing_html(briefings[i], i as nat)))
}

/// The whole report as an HTML page: `template` with its `{{style}}`,
/// `{{date}}`, `{{model}}` and `{{body}}` holes filled in that order.
pub open spec fn report_page(
    briefings: Seq<Briefing>,
    template: Seq<char>,
    style: Seq<char>,
    now: (i64, u32),
    model: Seq<char>,
) -> Seq<char> {
    replaced(
        replaced(
            replaced(
                replaced(template, "{{style}}"@, style),
                "{{date}}"@,
                html_escaped(strftime_text(now.0, now.1, LONG_DATE_FORMAT@)),
            ),
            "{{model}}"@,
            html_escaped(model),
        ),
        "{{body}}"@,
        report_body(briefings),
    )
}

proof fn lemma_regroup_nav(a: Seq<char>, n1: Seq<char>, p: Seq<char>, r: Seq<char>, n2: Seq<char>, b: Seq<char>, s: Seq<char>)
    ensures
        a + (n1 + (p + r) + n2) + b + s == (a + n1) + p + (r + n2 + b + s),
{
    assert(a + (n1 + (p + r) + n2) + b + s =~= (a + n1) + p + (r + n2 + b + s));
}

proof fn lemma_regroup_section(a: Seq<char>, s1: Seq<char>, p: Seq<char>, r: Seq<char>, s2: Seq<char>)
    ensures
        a + (s1 + (p + r) + s2) == (a + s1) + p + (r + s2),
{
    assert(a + (s1 + (p + r) + s2) =~= (a + s1) + p + (r + s2));
}

/// A section opens with its anchor and its question.
proof fn lemma_section_head(b: Briefing, i: nat)
    ensures
        ({
            let head = "<section id=\"topic-"@ + nat_text(i) + "\">\n<h2>"@ + html_escaped(b.question@);
            briefing_html(b, i) == head + briefing_html(b, i).skip(head.len() as int)
        }),
{
    let head = "<section id=\"topic-"@ + nat_text(i) + "\">\n<h2>"@ + html_escaped(b.question@);
    let sec = briefing_html(b, i);
    assert(sec.subrange(0, head.len() as int) =~= head);
    assert(sec =~= head + sec.skip(head.len() as int));
}

/// The index and the sections agree: for every topic `i`, the index holds a
/// link to `#topic-i` labelled with that topic's question, and the body holds
/// a section with id `topic-i` headed by the same question, so each index
/// link leads to the section of its own topic.
pub proof fn law_index_and_sections_agree(bs: Seq<Briefing>, i: int)
    requires
        0 <= i < bs.len(),
    ensures
        has_substring(report_body(bs), "<li><a href=\"#topic-"@ + nat_text(i as nat) + "\">"@ + html_escaped(bs[i].question@)),
        has_substring(report_body(bs), "<section id=\"topic-"@ + nat_text(i as nat) + "\">\n<h2>"@ + html_escaped(bs[i].question@)),
{
    let navs = Seq::new(bs.len(), |k: int| nav_item(k as nat, bs[k]));
    let secs = Seq::new(bs.len(), |k: int| briefing_html(bs[k], k as nat));
    let a = "<nav>\n<ol>\n"@;
    let b = "</ol>\n</nav>\n"@;
    assert(report_body(bs) == a + concat(navs) + b + concat(secs));

    let pn = "<li><a href=\"#topic-"@ + nat_text(i as nat) + "\">"@ + html_escaped(bs[i].question@);
    let rn = "</a></li>\n"@;
    assert(navs[i] == pn + rn);
    lemma_concat_at(navs, i);
    lemma_regroup_nav(a, concat(navs.take(i)), pn, rn, concat(navs.skip(i + 1)), b, concat(secs));
    lemma_found_between(a + concat(navs.take(i)), pn, rn + concat(navs.skip(i + 1)) + b + concat(secs));

    let ps = "<section id=\"topic-"@ + nat_text(i as nat) + "\">\n<h2>"@ + html_escaped(bs[i].question@);
    lemma_section_head(bs[i], i as nat);
    assert(secs[i] == briefing_html(bs[i], i as nat));
    let rs = secs[i].skip(ps.len() as int);
    lemma_concat_at(secs, i);
    lemma_regroup_section(a + concat(navs) + b, concat(secs.take(i)), ps, rs, concat(secs.skip(i + 1)));
    lemma_found_between(a + concat(navs) + b + concat(secs.take(i)), ps, rs + concat(secs.skip(i + 1)));
}

fn copy_sources(entries: &[Entry]) -> (res: Vec<Source>)
    ensures
        res@ == entries@.map_values(|e: Entry| source_of(e)),
{
    let mut out: Vec<Source> = Vec::new();
    let mut k: usize = 0;
    while k < entries.len()
        invariant
            k <= entries.len(),
            out@ == entries@.take(k as int).map_values(|e: Entry| source_of(e)),
        decreases entries.len() - k,
    {
        let e = &entries[k];
        out.push(Source { id: e.id, title: e.title.clone(), feed: e.feed.title.clone(), url: e.url.clone() });
        k = k + 1;
        assert(out@ =~= entries@.take(k as int).map_values(|e: Entry| source_of(e)));
    }
    assert(entries@.take(k as int) =~= entries@);
    out
}

impl Report {
    /// An empty report that will be written to `output_dir`; `exists` tells
    /// whether that directory exists.
    ///
    /// # Errors
    ///
    /// [`Error::OutputNotExist`] when it does not.
    pub fn new(output_dir: String, exists: bool) -> (res: Result<Report, Error>)
        ensures
            res is Ok <==> exists,
            res matches Ok(r) ==> r.briefings@.len() == 0 && r.output_dir@ == output_dir@,
            res matches Err(e) ==> e is OutputNotExist,
    {
        if !exists {
            return Err(Error::OutputNotExist);
        }
        Ok(Report { output_dir, briefings: Vec::new() })
    }

    /// Adds one topic's briefing, keeping the entries so highlights can link
    /// back to them.
    pub fn add(&mut self, topic: &Topic, entries: &[Entry], analysis: Analysis)
        ensures
            final(self).output_dir == old(self).output_dir,
            final(self).briefings@.len() == old(self).briefings@.len() + 1,
            forall|i: int| 0 <= i < old(self).briefings@.len() ==> final(self).briefings@[i] == old(self).briefings@[i],
            ({
                let b = final(self).briefings@.last();
                &&& b.question@ == topic.question@
                &&& b.since@ == topic.last_run@
                &&& b.scanned == entries@.len()
                &&& b.analysis == analysis
                &&& b.sources@ == entries@.map_values(|e: Entry| source_of(e))
            }),
    {
        let b = Briefing {
            question: topic.question.clone(),
            since: topic.last_run.copy(),
            scanned: entries.len(),
            analysis,
            sources: copy_sources(entries),
        };
        self.briefings.push(b);
    }

    /// The whole report as markdown, headed with `now` and the model.
    pub fn markdown(&self, now: &Timestamp, model: &str) -> (res: String)
        ensures
            res@ == report_markdown(self.briefings@, now@, model@),
    {
        let mut out = String::from_str("# Report — ");
        out.append(now.to_rfc2822().as_str());
        out.append("\n\n_");
        out.append(model);
        out.append("_\n\n");
        let ghost head = out@;
        let ghost bs = self.briefings@;
        let ghost f = |b: Briefing| briefing_markdown(b) + "\n"@;
        let mut k: usize = 0;
        while k < self.briefings.len()
            invariant
                k <= self.briefings.len(),
                bs == self.briefings@,
                f == (|b: Briefing| briefing_markdown(b) + "\n"@),
                out@ == head + concat(bs.take(k as int).map_values(f)),
            decreases self.briefings.len() - k,
        {
            out.append(self.briefings[k].render().as_str());
            out.append("\n");
            proof {
                assert(bs.take(k + 1).map_values(f) =~= bs.take(k as int).map_values(f).push(f(bs[k as int])));
                lemma_concat_push(bs.take(k as int).map_values(f), f(bs[k as int]));
            }
            k = k + 1;
        }
        assert(bs.take(k as int) =~= bs);
        out
    }

    /// The body of the HTML page: the index of topics, then every section.
    pub fn render_body(&self) -> (res: String)
        ensures
            res@ == report_body(self.briefings@),
    {
        let ghost bs = self.briefings@;
        let ghost fnav = |i: int| nav_item(i as nat, bs[i]);
        let ghost fsec = |i: int| briefing_html(bs[i], i as nat);
        let mut nav = String::new();
        let mut k: usize = 0;
        while k < self.briefings.len()
            invariant
                k <= self.briefings.len(),
                bs == self.briefings@,
                fnav == (|i: int| nav_item(i as nat, bs[i])),
                nav@ == concat(Seq::new(k as nat, fnav)),
            decreases self.briefings.len() - k,
        {
            nav.append("<li><a href=\"#topic-");
            nav.append(usize_text(k).as_str());
            nav.append("\">");
            nav.append(escape(self.briefings[k].question.as_str()).as_str());
            nav.append("</a></li>\n");
            proof {
                assert(Seq::new((k + 1) as nat, fnav) =~= Seq::new(k as nat, fnav).push(fnav(k as int)));
                lemma_concat_push(Seq::new(k as nat, fnav), fnav(k as int));
            }
            k = k + 1;
        }
        let mut sections = String::new();
        let mut k: usize = 0;
        while k < self.briefings.len()
            invariant
                k <= self.briefings.len(),
                bs == self.briefings@,
                fsec == (|i: int| briefing_html(bs[i], i as nat)),
                sections@ == concat(Seq::new(k as nat, fsec)),
            decreases self.briefings.len() - k,
        {
            sections.append(self.briefings[k].render_html(k).as_str());
            proof {
                assert(Seq::new((k + 1) as nat, fsec) =~= Seq::new(k as nat, fsec).push(fsec(k as int)));
                lemma_concat_push(Seq::new(k as nat, fsec), fsec(k as int));
            }
            k = k + 1;
        }
        let mut out = String::from_str("<nav>\n<ol>\n");
        out.append(nav.as_str());
        out.append("</ol>\n</nav>\n");
        out.append(sections.as_str());
        out
    }

    /// The whole report as one HTML page: `template` with `style` inlined and
    /// the date, the model and the body filled in.
    pub fn render_html(&self, template: &str, style: &str, now: &Timestamp, model: &str) -> (res: String)
        ensures
            res@ == report_page(self.briefings@, template@, style@, now@, model@),
    {
        proof {
            reveal_strlit("{{style}}");
            reveal_strlit("{{date}}");
            reveal_strlit("{{model}}");
            reveal_strlit("{{body}}");
        }
        let body = self.render_body();
        let page = replace_all(template, "{{style}}", style);
        let page = replace_all(page.as_str(), "{{date}}", escape(now.long_date().as_str()).as_str());
        let page = replace_all(page.as_str(), "{{model}}", escape(model).as_str());
        replace_all(page.as_str(), "{{body}}", body.as_str())
    }

    /// Renders the whole report, stamped with the current time: the markdown
    /// and HTML contents and their file names, `report_<stamp>.md` and
    /// `report_<stamp>.html`.
    ///
    /// # Errors
    ///
    /// [`Error::TimeOutOfRange`] when the clock reads outside years 0000 to
    /// 9999.
    pub fn generate(&self, template: &str, style: &str, model: &str) -> (res: Result<ReportFiles, Error>)
        ensures
            res matches Ok(f) ==> {
                &&& f.markdown@ == report_markdown(self.briefings@, f.now@, model@)
                &&& f.html@ == report_page(self.briefings@, template@, style@, f.now@, model@)
                &&& f.markdown_name@ == "report_"@ + strftime_text(f.now@.0, f.now@.1, FILE_STAMP_FORMAT@) + ".md"@
                &&& f.html_name@ == "report_"@ + strftime_text(f.now@.0, f.now@.1, FILE_STAMP_FORMAT@) + ".html"@
            },
            res matches Err(e) ==> e is TimeOutOfRange,
    {
        let now = match Timestamp::now() {
            Some(t) => t,
            None => return Err(Error::TimeOutOfRange),
        };
        let stamp = now.file_stamp();
        let mut markdown_name = String::from_str("report_");
        markdown_name.append(stamp.as_str());
        markdown_name.append(".md");
        let mut html_name = String::from_str("report_");
        html_name.append(stamp.as_str());
        html_name.append(".html");
        let markdown = self.markdown(&now, model);
        let html = self.render_html(template, style, &now, model);
        Ok(ReportFiles { now, markdown_name, markdown, html_name, html })
    }
}

} // verus!
