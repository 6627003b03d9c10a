//! Verified core of a small web-page scraper.
//!
//! The library extracts heading text and structured article records from
//! HTML documents, resolves relative links against a base URL, and turns
//! per-page fetch outcomes into the report that is printed, all under
//! contracts. Network I/O and the async fan-out live outside the library.

pub mod article;
pub mod html;
pub mod laws;
pub mod link;
pub mod report;
pub mod text;

pub use article::Article;
pub use article::FetchOutcome;
pub use html::extract_articles;
pub use html::extract_headings;
pub use link::url_is_valid;
pub use report::heading_page_report;
pub use report::page_articles;
pub use report::page_report;
pub use report::run_report;
