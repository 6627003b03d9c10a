use webscrape::report::{article_line, header_line, titles_header_line};
use webscrape::{
    heading_page_report, page_articles, page_report, run_report, Article, FetchOutcome,
};

#[test]
fn failed_fetch_becomes_single_error_record() {
    let articles = page_articles(
        "http://example.com",
        &FetchOutcome::Failed("connection refused".to_string()),
    );
    assert_eq!(articles.len(), 1);
    assert_eq!(articles[0].title, "Error: connection refused");
    assert_eq!(articles[0].url, "");
    assert!(articles[0].pub_date.is_none());
}

#[test]
fn invalid_target_url_becomes_error_record() {
    let articles = page_articles("not a url", &FetchOutcome::Body("<h1>x</h1>".to_string()));
    assert_eq!(articles.len(), 1);
    assert_eq!(articles[0].title, "Error: Invalid URL: not a url");
}

#[test]
fn article_line_format() {
    let a = Article {
        title: "Test Book".to_string(),
        url: "http://example.com/b".to_string(),
        pub_date: None,
    };
    assert_eq!(
        article_line(&a),
        "- Test Book (URL: http://example.com/b, Published: Unknown)"
    );
}

#[test]
fn article_line_formats_a_present_date() {
    let a = Article {
        title: "T".to_string(),
        url: "u".to_string(),
        pub_date: Some(0),
    };
    assert_eq!(article_line(&a), "- T (URL: u, Published: 1970-01-01 00:00:00 UTC)");
}

#[test]
fn header_line_format() {
    assert_eq!(header_line("http://example.com"), "Articles from http://example.com:");
}

#[test]
fn failed_second_target_keeps_order() {
    let html = r#"<article class="product_pod"><h3><a href="/catalogue/test-book_1/index.html" title="Test Book">x</a></h3></article>"#;
    let pages = vec![
        ("http://a.example".to_string(), FetchOutcome::Body(html.to_string())),
        (
            "http://b.example".to_string(),
            FetchOutcome::Failed("connection refused".to_string()),
        ),
    ];
    let lines = run_report(&pages);
    assert_eq!(
        lines,
        vec![
            "Articles from http://a.example:".to_string(),
            "- Test Book (URL: http://a.example/catalogue/test-book_1/index.html, Published: Unknown)"
                .to_string(),
            "Articles from http://b.example:".to_string(),
            "- Error: connection refused (URL: , Published: Unknown)".to_string(),
        ]
    );
    // the failed target's section is exactly one line after its header,
    // carrying the cause behind the error marker
    let second_section: Vec<&String> = lines[3..].iter().collect();
    assert_eq!(second_section.len(), 1);
    assert!(second_section[0].contains("Error: connection refused"));
}

#[test]
fn page_report_is_header_then_items() {
    let outcome = FetchOutcome::Failed("boom".to_string());
    let lines = page_report("http://x.example", &outcome);
    assert_eq!(lines.len(), 2);
    assert_eq!(lines[0], "Articles from http://x.example:");
    assert_eq!(lines[1], "- Error: boom (URL: , Published: Unknown)");
}

#[test]
fn heading_section_lists_trimmed_headings() {
    let outcome = FetchOutcome::Body("<h1> Alpha </h1><h2>  </h2><h3>Beta</h3>".to_string());
    let lines = heading_page_report("http://a.example", &outcome);
    assert_eq!(
        lines,
        vec![
            "Titles from http://a.example:".to_string(),
            "- Alpha".to_string(),
            "- Beta".to_string(),
        ]
    );
}

#[test]
fn heading_section_captures_failure() {
    let outcome = FetchOutcome::Failed("dns error".to_string());
    let lines = heading_page_report("http://a.example", &outcome);
    assert_eq!(
        lines,
        vec![
            "Titles from http://a.example:".to_string(),
            "- Error: dns error".to_string(),
        ]
    );
    assert_eq!(titles_header_line("u"), "Titles from u:");
}

#[test]
fn report_is_deterministic() {
    let pages = vec![
        ("http://a.example".to_string(), FetchOutcome::Body("<h1>t</h1>".to_string())),
        ("http://b.example".to_string(), FetchOutcome::Failed("e".to_string())),
    ];
    let pages_again = vec![
        ("http://a.example".to_string(), FetchOutcome::Body("<h1>t</h1>".to_string())),
        ("http://b.example".to_string(), FetchOutcome::Failed("e".to_string())),
    ];
    assert_eq!(run_report(&pages), run_report(&pages_again));
}
