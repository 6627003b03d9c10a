use webscrape::{extract_articles, extract_headings, url_is_valid};

#[test]
fn test_scrape_articles() {
    let base = "http://127.0.0.1:3000";
    let html = r#"
            <article class="product_pod">
                <h3><a href="/catalogue/test-book_1/index.html" title="Test Book">Test Book</a></h3>
            </article>
        "#;
    let articles = extract_articles(html, base).unwrap();
    assert_eq!(articles.len(), 1);
    assert_eq!(articles[0].title, "Test Book");
    assert_eq!(
        articles[0].url,
        format!("{}/catalogue/test-book_1/index.html", base)
    );
    assert!(articles[0].pub_date.is_none());
}

#[test]
fn test_scrape_articles_no_articles() {
    let html = "<div>No articles here</div>";
    let articles = extract_articles(html, "http://127.0.0.1:3000").unwrap();
    assert_eq!(articles.len(), 0);
}

#[test]
fn headings_trimmed_in_document_order() {
    let html = "<h1> Alpha </h1><h2>\n\t </h2><p>skip</p><h3>Beta</h3><h2>Gamma</h2>";
    let headings = extract_headings(html);
    assert_eq!(headings, vec!["Alpha", "Beta", "Gamma"]);
}

#[test]
fn no_heading_matches_yields_empty() {
    let headings = extract_headings("<p>No headings here</p>");
    assert_eq!(headings.len(), 0);
}

#[test]
fn empty_document_yields_empty() {
    assert_eq!(extract_headings("").len(), 0);
    let articles = extract_articles("", "http://example.com").unwrap();
    assert_eq!(articles.len(), 0);
}

#[test]
fn relative_href_joined_against_base() {
    let html = r#"<article class="product_pod"><h3><a href="/catalogue/test-book_1/index.html" title="Test Book">x</a></h3></article>"#;
    let articles = extract_articles(html, "http://books.toscrape.com").unwrap();
    assert_eq!(articles.len(), 1);
    assert_eq!(
        articles[0].url,
        "http://books.toscrape.com/catalogue/test-book_1/index.html"
    );
}

#[test]
fn missing_title_link_gets_fallback() {
    let html = r#"<article class="product_pod"><p>no link at all</p></article>"#;
    let articles = extract_articles(html, "http://example.com").unwrap();
    assert_eq!(articles.len(), 1);
    assert_eq!(articles[0].title, "Untitled");
    assert_eq!(articles[0].url, "");
    assert!(articles[0].pub_date.is_none());
}

#[test]
fn missing_href_yields_empty_url() {
    let html = r#"<article class="product_pod"><h3><a title="Test Book">x</a></h3></article>"#;
    let articles = extract_articles(html, "http://example.com").unwrap();
    assert_eq!(articles.len(), 1);
    assert_eq!(articles[0].title, "Test Book");
    assert_eq!(articles[0].url, "");
}

#[test]
fn unjoinable_href_yields_empty_url() {
    // a mailto base parses, but joining a relative reference against it fails
    let html = r#"<article class="product_pod"><h3><a href="books" title="Test Book">x</a></h3></article>"#;
    let articles = extract_articles(html, "mailto:books@example.com").unwrap();
    assert_eq!(articles.len(), 1);
    assert_eq!(articles[0].url, "");
}

#[test]
fn invalid_base_url_fails_fast() {
    let html = r#"<article class="product_pod"><h3><a href="/a" title="One">x</a></h3></article>"#;
    let result = extract_articles(html, "not a url");
    assert_eq!(result.unwrap_err(), "Invalid URL: not a url");
}

#[test]
fn url_validity() {
    assert!(url_is_valid("http://example.com"));
    assert!(url_is_valid("http://books.toscrape.com"));
    assert!(!url_is_valid("not a url"));
    assert!(!url_is_valid("/relative/only"));
}

#[test]
fn idempotent_extraction() {
    let html = r#"
        <article class="product_pod"><h3><a href="/one" title="One">x</a></h3></article>
        <article class="product_pod"><h3><a href="two" title="Two">y</a></h3></article>
    "#;
    let base = "http://example.com/shelf/";
    let first = extract_articles(html, base).unwrap();
    let second = extract_articles(html, base).unwrap();
    assert_eq!(first.len(), second.len());
    for (a, b) in first.iter().zip(second.iter()) {
        assert_eq!(a.title, b.title);
        assert_eq!(a.url, b.url);
        assert_eq!(a.pub_date, b.pub_date);
    }
    let headings_once = extract_headings(html);
    let headings_again = extract_headings(html);
    assert_eq!(headings_once, headings_again);
}
