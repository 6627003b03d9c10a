//! Extraction of headings and article records from an HTML document.
//!
//! Parsing the document and matching the fixed selector patterns is the
//! `scraper` crate's work; what it yields for a document depends on the
//! document text alone and carries a name here. Everything done with the
//! matches — trimming, the title fallback, link resolution, which
//! containers are kept — is verified.

use vstd::prelude::*;

use crate::article::{Article, ArticleView};
use crate::link::{spec_resolved_href, resolve_href, url_is_valid, url_ok};
use crate::text::{spec_trim, trim};

verus! {

/// The inner HTML of each level-1 to level-3 heading element of the parsed
/// document, in document order.
pub uninterp spec fn heading_raws(html: Seq<char>) -> Seq<Seq<char>>;

/// For each article container of the parsed document, in document order:
/// the `title` and `href` attributes of its first title-link element, each
/// absent where the element or the attribute is missing.
pub uninterp spec fn article_raws(html: Seq<char>) -> Seq<(Option<Seq<char>>, Option<Seq<char>>)>;

/// Relies on scraper's Html::parse_document, Selector::parse and
/// ElementRef::inner_html: selection walks the parsed tree in document
/// order, and what it yields depends on the document text alone.
#[verifier::external_body]
fn select_heading_raws(html: &str) -> (r: Vec<String>)
    ensures
        r.deep_view() == heading_raws(html@),
{
    let document = scraper::Html::parse_document(html);
    let selector = scraper::Selector::parse("h1, h2, h3").unwrap();
    document.select(&selector).map(|e| e.inner_html()).collect()
}

/// Relies on scraper's Html::parse_document, Selector::parse,
/// ElementRef::select and ElementRef::attr: containers are matched in
/// document order, and the attributes of the first title link of each
/// depend on the document text alone.
#[verifier::external_body]
fn select_article_raws(html: &str) -> (r: Vec<(Option<String>, Option<String>)>)
    ensures
        r.deep_view() == article_raws(html@),
{
    let document = scraper::Html::parse_document(html);
    let container = scraper::Selector::parse("article.product_pod").unwrap();
    let title_link = scraper::Selector::parse("h3 a").unwrap();
    let mut raws = Vec::new();
    for element in document.select(&container) {
        let link = element.select(&title_link).next();
        let title = link.and_then(|a| a.attr("title")).map(|s| s.to_string());
        let href = link.and_then(|a| a.attr("href")).map(|s| s.to_string());
        raws.push((title, href));
    }
    raws
}

/// The headings that survive cleaning: each raw heading trimmed, those left
/// empty discarded, document order kept.
pub open spec fn clean_headings(raws: Seq<Seq<char>>) -> Seq<Seq<char>>
    decreases raws.len(),
{
    if raws.len() == 0 {
        Seq::empty()
    } else {
        let rest = clean_headings(raws.drop_last());
        let t = spec_trim(raws.last());
        if t.len() > 0 {
            rest.push(t)
        } else {
            rest
        }
    }
}

/// What heading extraction returns for a document.
pub open spec fn spec_extract_headings(html: Seq<char>) -> Seq<Seq<char>> {
    clean_headings(heading_raws(html))
}

/// Extract the text of every level-1 to level-3 heading: the inner HTML of
/// each, trimmed, in document order, discarding any heading whose trimmed
/// content is empty.
pub fn extract_headings(html: &str) -> (r: Vec<String>)
    ensures
        r.deep_view() == spec_extract_headings(html@),
{
    let raws = select_heading_raws(html);
    let ghost rv = raws.deep_view();
    let mut out: Vec<String> = Vec::new();
    let n = raws.len();
    let mut i: usize = 0;
    while i < n
        invariant
            0 <= i <= n,
            n == raws@.len(),
            rv == raws.deep_view(),
            rv == heading_raws(html@),
            out.deep_view() == clean_headings(rv.subrange(0, i as int)),
        decreases n - i,
    {
        let t = trim(raws[i].as_str());
        proof {
            assert(raws@[i as int]@ == rv[i as int]);
            assert(rv.subrange(0, i + 1).drop_last() =~= rv.subrange(0, i as int));
            assert(rv.subrange(0, i + 1).last() == rv[i as int]);
        }
        if !t.is_empty() {
            out.push(t.to_owned());
            proof {
                assert(out.deep_view() =~= clean_headings(rv.subrange(0, i + 1)));
            }
        } else {
            assert(out.deep_view() == clean_headings(rv.subrange(0, i + 1)));
        }
        i = i + 1;
    }
    proof {
        assert(rv.subrange(0, n as int) =~= rv);
    }
    out
}

/// The title a raw container yields: its title link's `title` attribute,
/// or the fallback where the link or the attribute is missing.
pub open spec fn spec_title(attr: Option<Seq<char>>) -> Seq<char> {
    match attr {
        Some(s) => s,
        None => "Untitled"@,
    }
}

/// The record one raw container yields for a given base URL.
pub open spec fn spec_article(base: Seq<char>, raw: (Option<Seq<char>>, Option<Seq<char>>)) -> ArticleView {
    ArticleView {
        title: spec_title(raw.0),
        url: spec_resolved_href(base, raw.1),
        pub_date: None,
    }
}

/// The records a sequence of raw containers yields, keeping a container
/// only where its title is non-empty.
pub open spec fn articles_of(
    base: Seq<char>,
    raws: Seq<(Option<Seq<char>>, Option<Seq<char>>)>,
) -> Seq<ArticleView>
    decreases raws.len(),
{
    if raws.len() == 0 {
        Seq::empty()
    } else {
        let rest = articles_of(base, raws.drop_last());
        let a = spec_article(base, raws.last());
        if a.title.len() > 0 {
            rest.push(a)
        } else {
            rest
        }
    }
}

/// What article extraction returns for a document and a base URL that
/// parses.
pub open spec fn spec_extract_articles(html: Seq<char>, base: Seq<char>) -> Seq<ArticleView> {
    articles_of(base, article_raws(html))
}

/// The error text for a base URL that does not parse.
pub open spec fn spec_invalid_url_message(base: Seq<char>) -> Seq<char> {
    "Invalid URL: "@ + base
}

/// The error text reported for a base URL that does not parse.
pub fn invalid_url_message(base: &str) -> (r: String)
    ensures
        r@ == spec_invalid_url_message(base@),
{
    let mut m = String::from_str("Invalid URL: ");
    m.append(base);
    m
}

/// Extract one record per article container: the title-link's `title`
/// attribute (or the fallback), its `href` resolved against the base URL
/// (or the empty string), and no publication date. A base URL that does not
/// parse fails the whole extraction before any container is processed.
pub fn extract_articles(html: &str, base_url: &str) -> (r: Result<Vec<Article>, String>)
    ensures
        r is Ok <==> url_ok(base_url@),
        r matches Ok(v) ==> v.deep_view() == spec_extract_articles(html@, base_url@),
        r matches Err(m) ==> m@ == spec_invalid_url_message(base_url@),
{
    if !url_is_valid(base_url) {
        return Err(invalid_url_message(base_url));
    }
    let raws = select_article_raws(html);
    let ghost rv = raws.deep_view();
    let mut out: Vec<Article> = Vec::new();
    let n = raws.len();
    let mut i: usize = 0;
    while i < n
        invariant
            0 <= i <= n,
            n == raws@.len(),
            rv == raws.deep_view(),
            rv == article_raws(html@),
            url_ok(base_url@),
            out.deep_view() == articles_of(base_url@, rv.subrange(0, i as int)),
        decreases n - i,
    {
        let title: String = match &raws[i].0 {
            Some(s) => s.clone(),
            None => String::from_str("Untitled"),
        };
        let link: String = resolve_href(base_url, &raws[i].1);
        proof {
            assert(raws@[i as int].deep_view() == rv[i as int]);
            assert(rv.subrange(0, i + 1).drop_last() =~= rv.subrange(0, i as int));
            assert(rv.subrange(0, i + 1).last() == rv[i as int]);
            assert(title@ == spec_title(rv[i as int].0));
            assert(link@ == spec_resolved_href(base_url@, rv[i as int].1));
        }
        if !title.as_str().is_empty() {
            out.push(Article { title, url: link, pub_date: None });
            proof {
                assert(out.deep_view() =~= articles_of(base_url@, rv.subrange(0, i + 1)));
            }
        } else {
            assert(out.deep_view() == articles_of(base_url@, rv.subrange(0, i + 1)));
        }
        i = i + 1;
    }
    proof {
        assert(rv.subrange(0, n as int) =~= rv);
    }
    Ok(out)
}

} // verus!
