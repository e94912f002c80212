//! The four fragment renderers. Text taken from upstream data is escaped
//! before it is interpolated; configuration text is not.

use vstd::prelude::*;

use crate::html::{decimal, decimal_text, escape_html, escaped};
use crate::model::{Config, EpisodeRef, SearchEntry, SeriesInfo};

verus! {

/// The start of the series block, up to the image URL.
pub const INFO_OPEN: &'static str = "\n        <div id=info>\n            <hr />\n            <img src=\"";

/// Between the image URL and the title.
pub const INFO_TITLE: &'static str = "\" class=\"img\" style=\"float:right;\"/>\n            <div class=\"info\" style=\"float:left\">\n                <h1 class=\"title\">";

/// Between the title and the episode count.
pub const INFO_FIELDS: &'static str = "</h1>\n                <div class=\"fields\">\n                    <i>episodes: ";

/// After the episode count.
pub const INFO_COUNT_END: &'static str = "\n        ";

/// Before the release year.
pub const INFO_YEAR: &'static str = "<br>release year: ";

/// Before the status.
pub const INFO_STATUS: &'static str = "\n        <br>status: ";

/// After the status.
pub const INFO_STATUS_END: &'static str = "</i>\n    </div>\n    ";

/// The end of the series block.
pub const INFO_CLOSE: &'static str = "\n        </div>\n    </div>\n    ";

/// What `str::to_lowercase` makes of a text.
pub uninterp spec fn lower_of(s: Seq<char>) -> Seq<char>;

/// Relies on `str::to_lowercase`: its result depends on the characters alone,
/// and the empty text stays empty.
#[verifier::external_body]
fn lowercase(s: &str) -> (r: String)
    ensures
        r@ == lower_of(s@),
        s@.len() == 0 ==> r@.len() == 0,
{
    s.to_lowercase()
}

/// One `<option>` element.
pub open spec fn option_html(value: Seq<char>, label: Seq<char>) -> Seq<char> {
    "<option value=\""@ + escaped(value) + "\">"@ + escaped(label) + "</option>"@
}

/// One option per search hit, in order, valued by id and labelled by title.
pub open spec fn search_options(s: Seq<SearchEntry>) -> Seq<char>
    decreases s.len(),
{
    if s.len() == 0 {
        Seq::empty()
    } else {
        search_options(s.drop_last()) + option_html(s.last().id@, s.last().title@)
    }
}

/// One option per episode, in order, valued by id and labelled by its 1-based
/// position in the list.
pub open spec fn episode_options(s: Seq<EpisodeRef>) -> Seq<char>
    decreases s.len(),
{
    if s.len() == 0 {
        Seq::empty()
    } else {
        episode_options(s.drop_last()) + option_html(s.last().id@, decimal(s.len()))
    }
}

/// The link that opens a source in the player.
pub open spec fn index_link(player_base: Seq<char>, url: Seq<char>) -> Seq<char> {
    "<a href=\""@ + player_base + escaped(url) + "\">enjoy!</a>"@
}

pub open spec fn optional_html(v: Option<String>, open: Seq<char>, close: Seq<char>) -> Seq<char> {
    match v {
        Some(t) => open + escaped(t@) + close,
        None => Seq::empty(),
    }
}

/// The series block: image, title, episode count, release year if known,
/// status in lower case, description if known.
pub open spec fn info_html(i: SeriesInfo) -> Seq<char> {
    INFO_OPEN@ + escaped(i.image@) + INFO_TITLE@ + escaped(i.title@) + INFO_FIELDS@ + decimal(
        i.total_episodes as nat,
    ) + INFO_COUNT_END@ + optional_html(i.release_date, INFO_YEAR@, Seq::empty()) + INFO_STATUS@
        + escaped(lower_of(i.status@)) + INFO_STATUS_END@ + optional_html(
        i.description,
        "<p>"@,
        "</p>"@,
    ) + INFO_CLOSE@
}

fn option_element(value: &str, label: &str) -> (r: String)
    ensures
        r@ == option_html(value@, label@),
{
    let mut out = String::from_str("<option value=\"");
    out.append(escape_html(value).as_str());
    out.append("\">");
    out.append(escape_html(label).as_str());
    out.append("</option>");
    out
}

/// Renders search hits as `<option>` elements, concatenated.
pub fn render_search_options(entries: &Vec<SearchEntry>) -> (r: String)
    ensures
        r@ == search_options(entries@),
{
    let mut out = String::new();
    let n = entries.len();
    let mut i: usize = 0;
    while i < n
        invariant
            n == entries@.len(),
            i <= n,
            out@ == search_options(entries@.subrange(0, i as int)),
        decreases n - i,
    {
        let piece = option_element(entries[i].id.as_str(), entries[i].title.as_str());
        out.append(piece.as_str());
        assert(entries@.subrange(0, i + 1).drop_last() =~= entries@.subrange(0, i as int));
        i = i + 1;
    }
    assert(entries@.subrange(0, n as int) =~= entries@);
    out
}

/// Renders episodes as `<option>` elements, concatenated, each labelled by
/// its 1-based position.
pub fn render_episode_options(episodes: &Vec<EpisodeRef>) -> (r: String)
    ensures
        r@ == episode_options(episodes@),
{
    let mut out = String::new();
    let n = episodes.len();
    let mut i: usize = 0;
    while i < n
        invariant
            n == episodes@.len(),
            i <= n,
            out@ == episode_options(episodes@.subrange(0, i as int)),
        decreases n - i,
    {
        let position = decimal_text(i as u64 + 1);
        let piece = option_element(episodes[i].id.as_str(), position.as_str());
        out.append(piece.as_str());
        assert(episodes@.subrange(0, i + 1).drop_last() =~= episodes@.subrange(0, i as int));
        i = i + 1;
    }
    assert(episodes@.subrange(0, n as int) =~= episodes@);
    out
}

/// Renders the player link for a chosen source URL.
pub fn render_index_link(config: &Config, url: &str) -> (r: String)
    ensures
        r@ == index_link(config.player_base@, url@),
{
    let mut out = String::from_str("<a href=\"");
    out.append(config.player_base.as_str());
    out.append(escape_html(url).as_str());
    out.append("\">enjoy!</a>");
    out
}

/// Renders the series block.
pub fn render_info(info: &SeriesInfo) -> (r: String)
    ensures
        r@ == info_html(*info),
{
    let mut out = String::from_str(INFO_OPEN);
    out.append(escape_html(info.image.as_str()).as_str());
    out.append(INFO_TITLE);
    out.append(escape_html(info.title.as_str()).as_str());
    out.append(INFO_FIELDS);
    out.append(decimal_text(info.total_episodes).as_str());
    out.append(INFO_COUNT_END);
    let ghost head = out@;
    match &info.release_date {
        Some(d) => {
            out.append(INFO_YEAR);
            out.append(escape_html(d.as_str()).as_str());
        },
        None => {},
    }
    assert(out@ =~= head + optional_html(info.release_date, INFO_YEAR@, Seq::empty()));
    out.append(INFO_STATUS);
    let status = lowercase(info.status.as_str());
    out.append(escape_html(status.as_str()).as_str());
    out.append(INFO_STATUS_END);
    let ghost middle = out@;
    match &info.description {
        Some(d) => {
            out.append("<p>");
            out.append(escape_html(d.as_str()).as_str());
            out.append("</p>");
        },
        None => {},
    }
    assert(out@ =~= middle + optional_html(info.description, "<p>"@, "</p>"@));
    out.append(INFO_CLOSE);
    out
}

/// Rendering is deterministic: the same domain object always yields the same
/// fragment, for each of the four renderers.
pub proof fn lemma_render_deterministic(
    a: Seq<SearchEntry>,
    b: Seq<SearchEntry>,
    e: Seq<EpisodeRef>,
    f: Seq<EpisodeRef>,
    base: Seq<char>,
    u: Seq<char>,
    v: Seq<char>,
    i: SeriesInfo,
    j: SeriesInfo,
)
    requires
        a == b,
        e == f,
        u == v,
        i == j,
    ensures
        search_options(a) == search_options(b),
        episode_options(e) == episode_options(f),
        index_link(base, u) == index_link(base, v),
        info_html(i) == info_html(j),
{
}

} // verus!
