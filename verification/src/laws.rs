//! General properties of extraction and reporting, stated and proved once.

use vstd::prelude::*;

use crate::article::{ArticleView, OutcomeView};
use crate::html::{
    article_raws, articles_of, clean_headings, heading_raws, spec_article,
    spec_extract_articles, spec_extract_headings,
};
use crate::link::spec_resolved_href;
use crate::report::{spec_error_article, spec_page_articles, spec_page_report, spec_run_report};

verus! {

/// A document whose selectors match nothing extracts to the empty sequence,
/// not to an error: with no raw headings and no raw containers, both
/// extractions return exactly the empty sequence.
pub proof fn lemma_no_matches_yields_empty(html: Seq<char>, base: Seq<char>)
    ensures
        heading_raws(html).len() == 0 ==> spec_extract_headings(html) == Seq::<Seq<char>>::empty(),
        article_raws(html).len() == 0 ==> spec_extract_articles(html, base) == Seq::<
            ArticleView,
        >::empty(),
{
    if heading_raws(html).len() == 0 {
        assert(clean_headings(heading_raws(html)) == Seq::<Seq<char>>::empty());
    }
    if article_raws(html).len() == 0 {
        assert(articles_of(base, article_raws(html)) == Seq::<ArticleView>::empty());
    }
}

/// A container with no title link still yields a record: its title is the
/// fallback, its URL is the empty string, and — the fallback being
/// non-empty — the record is included in the output.
pub proof fn lemma_missing_title_link(
    base: Seq<char>,
    raws: Seq<(Option<Seq<char>>, Option<Seq<char>>)>,
)
    ensures
        spec_article(base, (None, None)) == (ArticleView {
            title: "Untitled"@,
            url: Seq::<char>::empty(),
            pub_date: None,
        }),
        articles_of(base, raws.push((None, None))) == articles_of(base, raws).push(
            spec_article(base, (None, None)),
        ),
{
    reveal_strlit("Untitled");
    assert(spec_resolved_href(base, None) == Seq::<char>::empty());
    let raw = (None::<Seq<char>>, None::<Seq<char>>);
    assert(raws.push(raw).drop_last() =~= raws);
    assert(raws.push(raw).last() == raw);
    assert(spec_article(base, raw).title.len() > 0);
}

/// Extraction is deterministic: two results for the same document and the
/// same base URL are equal.
pub proof fn lemma_extraction_deterministic(
    html: Seq<char>,
    base: Seq<char>,
    first: Seq<ArticleView>,
    second: Seq<ArticleView>,
)
    requires
        first == spec_extract_articles(html, base),
        second == spec_extract_articles(html, base),
    ensures
        first == second,
{
}

/// A target whose fetch failed still gets a section: exactly one record,
/// whose title is the failure text behind the error marker.
pub proof fn lemma_failed_fetch_captured(base: Seq<char>, cause: Seq<char>)
    ensures
        spec_page_articles(base, OutcomeView::Failed(cause)).len() == 1,
        spec_page_articles(base, OutcomeView::Failed(cause))[0] == spec_error_article(cause),
        spec_error_article(cause).title == "Error: "@ + cause,
{
}

/// The report keeps submission order: a run extended by one more target is
/// the shorter run's report followed by that target's own section, whatever
/// its outcome was.
pub proof fn lemma_report_keeps_order(
    pages: Seq<(Seq<char>, OutcomeView)>,
    url: Seq<char>,
    outcome: OutcomeView,
)
    ensures
        spec_run_report(pages.push((url, outcome))) == spec_run_report(pages) + spec_page_report(
            url,
            outcome,
        ),
{
    let page = (url, outcome);
    assert(pages.push(page).drop_last() =~= pages);
    assert(pages.push(page).last() == page);
}

} // verus!
