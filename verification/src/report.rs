//! The per-target decisions of the fan-out/fan-in run and the report text.
//!
//! Fetching happens outside the library; what comes back for each target is
//! a [`FetchOutcome`]. Everything decided afterwards — turning a failure
//! into a captured-error record, extracting from a body, and rendering the
//! printed lines in the original target order — is verified here.

use vstd::prelude::*;

use crate::article::{Article, ArticleView, FetchOutcome, OutcomeView};
use crate::html::{
    extract_articles, extract_headings, spec_extract_articles, spec_extract_headings,
    spec_invalid_url_message,
};
use crate::link::url_ok;

verus! {

/// The serialization chrono gives a UTC time built from whole seconds since
/// the Unix epoch, absent where the seconds fall outside chrono's range.
pub uninterp spec fn timestamp_text(secs: i64) -> Option<Seq<char>>;

/// Relies on chrono's DateTime::from_timestamp and the Display of UTC
/// times: both depend on the seconds value alone, and `from_timestamp`
/// returns `None` exactly on out-of-range values.
#[verifier::external_body]
fn format_timestamp(secs: i64) -> (r: Option<String>)
    ensures
        r.deep_view() == timestamp_text(secs),
{
    chrono::DateTime::<chrono::Utc>::from_timestamp(secs, 0).map(|d| d.to_string())
}

/// The text printed for a publication time: its chrono serialization, or
/// the placeholder where the time is absent.
pub open spec fn spec_date_text(d: Option<i64>) -> Seq<char> {
    match d {
        Some(t) => match timestamp_text(t) {
            Some(s) => s,
            None => "Unknown"@,
        },
        None => "Unknown"@,
    }
}

fn date_text(d: &Option<i64>) -> (r: String)
    ensures
        r@ == spec_date_text(*d),
{
    match d {
        Some(t) => match format_timestamp(*t) {
            Some(s) => s,
            None => String::from_str("Unknown"),
        },
        None => String::from_str("Unknown"),
    }
}

/// The printed line for one record.
pub open spec fn spec_article_line(a: ArticleView) -> Seq<char> {
    "- "@ + a.title + " (URL: "@ + a.url + ", Published: "@ + spec_date_text(a.pub_date) + ")"@
}

/// Render the printed line for one record.
pub fn article_line(a: &Article) -> (r: String)
    ensures
        r@ == spec_article_line(a@),
{
    let mut line = String::from_str("- ");
    line.append(a.title.as_str());
    line.append(" (URL: ");
    line.append(a.url.as_str());
    line.append(", Published: ");
    let d = date_text(&a.pub_date);
    line.append(d.as_str());
    line.append(")");
    proof {
        assert(line@ =~= spec_article_line(a@));
    }
    line
}

/// The header line of one target's section.
pub open spec fn spec_header_line(url: Seq<char>) -> Seq<char> {
    "Articles from "@ + url + ":"@
}

/// Render the header line of one target's section.
pub fn header_line(url: &str) -> (r: String)
    ensures
        r@ == spec_header_line(url@),
{
    let mut line = String::from_str("Articles from ");
    line.append(url);
    line.append(":");
    proof {
        assert(line@ =~= spec_header_line(url@));
    }
    line
}

/// The single record that captures a failure as data.
pub open spec fn spec_error_article(msg: Seq<char>) -> ArticleView {
    ArticleView { title: "Error: "@ + msg, url: Seq::empty(), pub_date: None }
}

fn error_article(msg: &str) -> (r: Article)
    ensures
        r@ == spec_error_article(msg@),
{
    let mut title = String::from_str("Error: ");
    title.append(msg);
    Article { title, url: String::new(), pub_date: None }
}

/// The records reported for one target: what extraction yields on a fetched
/// body, and a single captured-error record where the fetch failed or the
/// target's own URL does not parse as a base.
pub open spec fn spec_page_articles(base: Seq<char>, outcome: OutcomeView) -> Seq<ArticleView> {
    match outcome {
        OutcomeView::Failed(e) => seq![spec_error_article(e)],
        OutcomeView::Body(b) => if url_ok(base) {
            spec_extract_articles(b, base)
        } else {
            seq![spec_error_article(spec_invalid_url_message(base))]
        },
    }
}

/// Produce the records for one target from its fetch outcome; a failure at
/// either stage becomes one captured-error record, never a missing entry.
pub fn page_articles(base_url: &str, outcome: &FetchOutcome) -> (r: Vec<Article>)
    ensures
        r.deep_view() == spec_page_articles(base_url@, outcome@),
{
    match outcome {
        FetchOutcome::Failed(e) => {
            let mut out: Vec<Article> = Vec::new();
            out.push(error_article(e.as_str()));
            proof {
                assert(out.deep_view() =~= spec_page_articles(base_url@, outcome@));
            }
            out
        },
        FetchOutcome::Body(b) => match extract_articles(b.as_str(), base_url) {
            Ok(v) => v,
            Err(m) => {
                let mut out: Vec<Article> = Vec::new();
                out.push(error_article(m.as_str()));
                proof {
                    assert(out.deep_view() =~= spec_page_articles(base_url@, outcome@));
                }
                out
            },
        },
    }
}

/// The printed lines for a sequence of records, one line each, in order.
pub open spec fn spec_article_lines(items: Seq<ArticleView>) -> Seq<Seq<char>> {
    items.map_values(|a: ArticleView| spec_article_line(a))
}

/// The printed section for one target: its header line, then one line per
/// record.
pub open spec fn spec_page_report(url: Seq<char>, outcome: OutcomeView) -> Seq<Seq<char>> {
    seq![spec_header_line(url)] + spec_article_lines(spec_page_articles(url, outcome))
}

/// Render one target's section: the header line, then one line per record
/// produced from the target's fetch outcome.
pub fn page_report(url: &str, outcome: &FetchOutcome) -> (r: Vec<String>)
    ensures
        r.deep_view() == spec_page_report(url@, outcome@),
{
    let items = page_articles(url, outcome);
    let ghost iv = items.deep_view();
    let mut lines: Vec<String> = Vec::new();
    lines.push(header_line(url));
    let n = items.len();
    let mut i: usize = 0;
    while i < n
        invariant
            0 <= i <= n,
            n == items@.len(),
            iv == items.deep_view(),
            iv == spec_page_articles(url@, outcome@),
            lines.deep_view() =~= seq![spec_header_line(url@)] + spec_article_lines(
                iv.subrange(0, i as int),
            ),
        decreases n - i,
    {
        let ghost prev = lines.deep_view();
        let line = article_line(&items[i]);
        lines.push(line);
        proof {
            assert(items@[i as int]@ == iv[i as int]);
            assert(lines.deep_view() =~= prev.push(spec_article_line(iv[i as int])));
            assert(spec_article_lines(iv.subrange(0, i + 1)) =~= spec_article_lines(
                iv.subrange(0, i as int),
            ).push(spec_article_line(iv[i as int])));
            assert(prev.push(spec_article_line(iv[i as int])) =~= seq![spec_header_line(url@)]
                + spec_article_lines(iv.subrange(0, i + 1)));
        }
        i = i + 1;
    }
    proof {
        assert(iv.subrange(0, n as int) =~= iv);
        assert(lines.deep_view() =~= spec_page_report(url@, outcome@));
    }
    lines
}

/// The printed line for one heading in the headings variant.
pub open spec fn spec_heading_line(text: Seq<char>) -> Seq<char> {
    "- "@ + text
}

fn heading_line(text: &str) -> (r: String)
    ensures
        r@ == spec_heading_line(text@),
{
    let mut line = String::from_str("- ");
    line.append(text);
    line
}

/// The header line of one target's section in the headings variant.
pub open spec fn spec_titles_header_line(url: Seq<char>) -> Seq<char> {
    "Titles from "@ + url + ":"@
}

/// Render the header line of one target's section in the headings variant.
pub fn titles_header_line(url: &str) -> (r: String)
    ensures
        r@ == spec_titles_header_line(url@),
{
    let mut line = String::from_str("Titles from ");
    line.append(url);
    line.append(":");
    proof {
        assert(line@ =~= spec_titles_header_line(url@));
    }
    line
}

/// The printed section for one target in the headings variant: its header
/// line, then one line per surviving heading — or one captured-error line
/// where the fetch failed.
pub open spec fn spec_heading_page_report(url: Seq<char>, outcome: OutcomeView) -> Seq<Seq<char>> {
    match outcome {
        OutcomeView::Failed(e) => seq![
            spec_titles_header_line(url),
            spec_heading_line("Error: "@ + e),
        ],
        OutcomeView::Body(b) => seq![spec_titles_header_line(url)] + spec_extract_headings(
            b,
        ).map_values(|t: Seq<char>| spec_heading_line(t)),
    }
}

/// Render one target's section in the headings variant.
pub fn heading_page_report(url: &str, outcome: &FetchOutcome) -> (r: Vec<String>)
    ensures
        r.deep_view() == spec_heading_page_report(url@, outcome@),
{
    let mut lines: Vec<String> = Vec::new();
    lines.push(titles_header_line(url));
    match outcome {
        FetchOutcome::Failed(e) => {
            let mut msg = String::from_str("Error: ");
            msg.append(e.as_str());
            lines.push(heading_line(msg.as_str()));
            proof {
                assert(lines.deep_view() =~= spec_heading_page_report(url@, outcome@));
            }
            lines
        },
        FetchOutcome::Body(b) => {
            let headings = extract_headings(b.as_str());
            let ghost hv = headings.deep_view();
            let n = headings.len();
            let mut i: usize = 0;
            while i < n
                invariant
                    0 <= i <= n,
                    n == headings@.len(),
                    hv == headings.deep_view(),
                    hv == spec_extract_headings(b@),
                    lines.deep_view() =~= seq![spec_titles_header_line(url@)] + hv.subrange(
                        0,
                        i as int,
                    ).map_values(|t: Seq<char>| spec_heading_line(t)),
                decreases n - i,
            {
                let ghost prev = lines.deep_view();
                lines.push(heading_line(headings[i].as_str()));
                proof {
                    assert(headings@[i as int]@ == hv[i as int]);
                    assert(lines.deep_view() =~= prev.push(spec_heading_line(hv[i as int])));
                    assert(hv.subrange(0, i + 1).map_values(
                        |t: Seq<char>| spec_heading_line(t),
                    ) =~= hv.subrange(0, i as int).map_values(
                        |t: Seq<char>| spec_heading_line(t),
                    ).push(spec_heading_line(hv[i as int])));
                    assert(lines.deep_view() =~= seq![spec_titles_header_line(url@)] + hv.subrange(
                        0,
                        i + 1,
                    ).map_values(|t: Seq<char>| spec_heading_line(t)));
                }
                i = i + 1;
            }
            proof {
                assert(hv.subrange(0, n as int) =~= hv);
                assert(lines.deep_view() =~= spec_heading_page_report(url@, outcome@));
            }
            lines
        },
    }
}

/// The printed report for a whole run: each target's section, in the order
/// the targets were given, regardless of which fetches failed.
pub open spec fn spec_run_report(pages: Seq<(Seq<char>, OutcomeView)>) -> Seq<Seq<char>>
    decreases pages.len(),
{
    if pages.len() == 0 {
        Seq::empty()
    } else {
        spec_run_report(pages.drop_last()) + spec_page_report(
            pages.last().0,
            pages.last().1,
        )
    }
}

/// Render the whole run's report: one section per target, in submission
/// order.
pub fn run_report(pages: &Vec<(String, FetchOutcome)>) -> (r: Vec<String>)
    ensures
        r.deep_view() == spec_run_report(pages.deep_view()),
{
    let ghost pv = pages.deep_view();
    let mut lines: Vec<String> = Vec::new();
    let n = pages.len();
    let mut i: usize = 0;
    while i < n
        invariant
            0 <= i <= n,
            n == pages@.len(),
            pv == pages.deep_view(),
            lines.deep_view() == spec_run_report(pv.subrange(0, i as int)),
        decreases n - i,
    {
        let mut section = page_report(pages[i].0.as_str(), &pages[i].1);
        let ghost sv = section.deep_view();
        let ghost before = lines.deep_view();
        let m = section.len();
        let mut j: usize = 0;
        while j < m
            invariant
                0 <= j <= m,
                m == section@.len(),
                sv == section.deep_view(),
                lines.deep_view() =~= before + sv.subrange(0, j as int),
            decreases m - j,
        {
            let ghost prev = lines.deep_view();
            let line = section[j].clone();
            lines.push(line);
            proof {
                assert(section@[j as int]@ == sv[j as int]);
                assert(lines.deep_view() =~= prev.push(sv[j as int]));
                assert(prev.push(sv[j as int]) =~= before + sv.subrange(0, j + 1));
            }
            j = j + 1;
        }
        proof {
            assert(sv.subrange(0, m as int) =~= sv);
            assert(pages@[i as int].deep_view() == pv[i as int]);
            assert(pv.subrange(0, i + 1).drop_last() =~= pv.subrange(0, i as int));
            assert(pv.subrange(0, i + 1).last() == pv[i as int]);
            assert(lines.deep_view() =~= spec_run_report(pv.subrange(0, i + 1)));
        }
        i = i + 1;
    }
    proof {
        assert(pv.subrange(0, n as int) =~= pv);
    }
    lines
}

} // verus!
