//! The records the scraper produces and the outcome a fetch hands in.

use vstd::prelude::*;

verus! {

/// One extracted record: a title, an absolute link (empty where the link was
/// missing or could not be resolved), and a publication time in whole
/// seconds since the Unix epoch (absent where the page gives none).
#[derive(Debug)]
pub struct Article {
    pub title: String,
    pub url: String,
    pub pub_date: Option<i64>,
}

/// The mathematical value of an [`Article`].
pub struct ArticleView {
    pub title: Seq<char>,
    pub url: Seq<char>,
    pub pub_date: Option<i64>,
}

impl View for Article {
    type V = ArticleView;

    open spec fn view(&self) -> ArticleView {
        ArticleView { title: self.title@, url: self.url@, pub_date: self.pub_date }
    }
}

impl DeepView for Article {
    type V = ArticleView;

    open spec fn deep_view(&self) -> ArticleView {
        self.view()
    }
}

/// What fetching one page produced: the body text of the response, whatever
/// its status code, or the text of the failure.
pub enum FetchOutcome {
    Body(String),
    Failed(String),
}

/// The mathematical value of a [`FetchOutcome`].
pub enum OutcomeView {
    Body(Seq<char>),
    Failed(Seq<char>),
}

impl View for FetchOutcome {
    type V = OutcomeView;

    open spec fn view(&self) -> OutcomeView {
        match self {
            FetchOutcome::Body(s) => OutcomeView::Body(s@),
            FetchOutcome::Failed(s) => OutcomeView::Failed(s@),
        }
    }
}

impl DeepView for FetchOutcome {
    type V = OutcomeView;

    open spec fn deep_view(&self) -> OutcomeView {
        self.view()
    }
}

} // verus!
