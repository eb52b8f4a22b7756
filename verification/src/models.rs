//! Request and response types of the Tavily-compatible API.
//!
//! Tavily reports a relevance `score` and a `response_time` in seconds as
//! floating-point numbers. Here a search result carries its 1-based `rank`
//! (its score is `1 / rank`) and a response carries the elapsed time as a
//! `Duration`; the serving layer turns both into the JSON numbers.

use std::time::Duration;

use vstd::prelude::*;

verus! {

/// The JSON value that a client may send as `include_answer`; it is parsed
/// and carried, never read.
#[verifier::external_type_specification]
#[verifier::external_body]
pub struct ExJsonValue(serde_json::Value);

/// The views of a sequence of strings.
pub open spec fn strings_view(v: Seq<String>) -> Seq<Seq<char>> {
    v.map_values(|s: String| s@)
}

/// The view of an optional string.
pub open spec fn opt_string_view(s: Option<String>) -> Option<Seq<char>> {
    match s {
        Some(t) => Some(t@),
        None => None,
    }
}

/// The view of an optional string slice.
pub open spec fn opt_str_view(s: Option<&str>) -> Option<Seq<char>> {
    match s {
        Some(t) => Some(t@),
        None => None,
    }
}

/// A Tavily `/search` request.
#[derive(Debug, Clone)]
pub struct TavilySearchRequest {
    pub api_key: Option<String>,
    pub query: String,
    pub max_results: Option<usize>,
    pub include_images: bool,
    pub include_answer: Option<serde_json::Value>,
    pub search_depth: Option<String>,
    pub topic: Option<String>,
}

/// A Tavily `/search` response.
#[derive(Debug)]
pub struct TavilySearchResponse {
    pub query: String,
    pub answer: Option<String>,
    pub images: Vec<String>,
    pub results: Vec<TavilySearchResult>,
    /// Time spent answering.
    pub response_time: Duration,
}

/// One search hit; its Tavily score is `1 / rank`.
#[derive(Debug, Clone)]
pub struct TavilySearchResult {
    pub title: String,
    pub url: String,
    pub content: String,
    pub rank: usize,
    pub raw_content: Option<String>,
    pub favicon: Option<String>,
}

/// A Tavily `/extract` request.
#[derive(Debug, Clone)]
pub struct TavilyExtractRequest {
    pub api_key: Option<String>,
    pub urls: TavilyUrls,
    pub include_images: bool,
    pub extract_depth: Option<String>,
    pub query: Option<String>,
    pub chunks_per_source: Option<usize>,
}

/// The `urls` field of an extract request: one URL or a list of them.
#[derive(Debug, Clone)]
pub enum TavilyUrls {
    One(String),
    Many(Vec<String>),
}

impl TavilyExtractRequest {
    /// The URLs of the request, in order.
    pub open spec fn spec_url_list(self) -> Seq<String> {
        match self.urls {
            TavilyUrls::One(url) => seq![url],
            TavilyUrls::Many(urls) => urls@,
        }
    }

    /// Returns the requested URLs as a list, whichever form they came in.
    pub fn url_list(&self) -> (res: Vec<String>)
        ensures
            res@ == self.spec_url_list(),
    {
        match &self.urls {
            TavilyUrls::One(url) => {
                let mut v: Vec<String> = Vec::new();
                v.push(url.clone());
                proof {
                    assert(v@ =~= seq![*url]);
                }
                v
            },
            TavilyUrls::Many(urls) => {
                let mut v: Vec<String> = Vec::new();
                let n: usize = urls.len();
                let mut i: usize = 0;
                while i < n
                    invariant
                        n == urls@.len(),
                        i <= n,
                        v@ =~= urls@.subrange(0, i as int),
                    decreases n - i,
                {
                    v.push(urls[i].clone());
                    i = i + 1;
                }
                proof {
                    assert(v@ =~= urls@);
                }
                v
            },
        }
    }
}

/// A Tavily `/extract` response.
#[derive(Debug)]
pub struct TavilyExtractResponse {
    pub results: Vec<TavilyExtractResult>,
    pub failed_results: Vec<TavilyFailedResult>,
    pub failed_urls: Vec<String>,
    /// Time spent answering.
    pub response_time: Duration,
}

/// One page whose content was extracted.
#[derive(Debug, Clone)]
pub struct TavilyExtractResult {
    pub url: String,
    pub title: String,
    pub content: String,
    pub raw_content: String,
    pub images: Vec<String>,
    pub favicon: Option<String>,
}

/// One page that could not be extracted, with the reason.
#[derive(Debug, Clone)]
pub struct TavilyFailedResult {
    pub url: String,
    pub error: String,
}

/// The JSON body of every error answer.
#[derive(Debug, Clone)]
pub struct ErrorResponse {
    pub error: String,
}

/// The mathematical content of an extracted page.
pub struct ExtractResultView {
    pub url: Seq<char>,
    pub title: Seq<char>,
    pub content: Seq<char>,
    pub raw_content: Seq<char>,
    pub images: Seq<Seq<char>>,
    pub favicon: Option<Seq<char>>,
}

impl View for TavilyExtractResult {
    type V = ExtractResultView;

    open spec fn view(&self) -> ExtractResultView {
        ExtractResultView {
            url: self.url@,
            title: self.title@,
            content: self.content@,
            raw_content: self.raw_content@,
            images: strings_view(self.images@),
            favicon: opt_string_view(self.favicon),
        }
    }
}

/// The mathematical content of a failed page.
pub struct FailedResultView {
    pub url: Seq<char>,
    pub error: Seq<char>,
}

impl View for TavilyFailedResult {
    type V = FailedResultView;

    open spec fn view(&self) -> FailedResultView {
        FailedResultView { url: self.url@, error: self.error@ }
    }
}

} // verus!
