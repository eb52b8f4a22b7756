//! What the bridge exchanges with Kagi: the parts of Kagi's answers that the
//! translation reads, the parameters of the requests it sends, and the
//! upstream error.

use vstd::prelude::*;
use vstd::string::StringExecFns;

use crate::models::{TavilyExtractRequest, TavilySearchRequest};

verus! {

/// One hit of a Kagi search.
#[derive(Debug, Clone)]
pub struct KagiSearchResult {
    pub url: String,
    pub title: String,
    pub snippet: Option<String>,
}

/// The `data` part of a Kagi search answer.
#[derive(Debug, Clone)]
pub struct KagiSearchData {
    pub search: Option<Vec<KagiSearchResult>>,
}

/// A Kagi search answer.
#[derive(Debug, Clone)]
pub struct KagiSearchResponse {
    pub data: Option<KagiSearchData>,
}

/// One page of a Kagi extract answer: its markdown when extraction worked,
/// or an error text when it did not.
#[derive(Debug, Clone)]
pub struct KagiPageOutput {
    pub url: String,
    pub markdown: Option<Option<String>>,
    pub error: Option<String>,
}

/// A Kagi extract answer.
#[derive(Debug, Clone)]
pub struct KagiExtractResponse {
    pub data: Vec<KagiPageOutput>,
}

impl KagiSearchResponse {
    /// The hits of the answer; none when the answer carries no list.
    pub open spec fn hits(self) -> Seq<KagiSearchResult> {
        match self.data {
            Some(data) => match data.search {
                Some(v) => v@,
                None => Seq::empty(),
            },
            None => Seq::empty(),
        }
    }
}

/// A failed call to Kagi.
#[derive(Debug, Clone)]
pub enum KagiError {
    Upstream(String),
}

/// The text that describes a failed call to Kagi.
pub open spec fn kagi_error_message(err: KagiError) -> Seq<char> {
    match err {
        KagiError::Upstream(detail) => "Kagi upstream error: "@ + detail@,
    }
}

impl KagiError {
    /// Describes the failure, as `Kagi upstream error: <detail>`.
    pub fn message(&self) -> (res: String)
        ensures
            res@ == kagi_error_message(*self),
    {
        match self {
            KagiError::Upstream(detail) => String::from_str("Kagi upstream error: ").concat(
                detail.as_str(),
            ),
        }
    }
}

/// The Kagi search workflow that a request asks for.
#[derive(Debug, Clone, Copy, PartialEq, Eq, Structural)]
pub enum KagiWorkflow {
    Search,
    News,
}

/// The answer format asked of Kagi.
#[derive(Debug, Clone, Copy, PartialEq, Eq, Structural)]
pub enum KagiFormat {
    Json,
}

/// The parameters of a Kagi search call.
#[derive(Debug, Clone)]
pub struct KagiSearchParams {
    pub query: String,
    pub limit: Option<i32>,
    pub workflow: KagiWorkflow,
    pub format: KagiFormat,
}

/// The parameters of a Kagi extract call: one page per URL.
#[derive(Debug, Clone)]
pub struct KagiExtractParams {
    pub pages: Vec<String>,
    pub format: KagiFormat,
}

/// The least and the greatest number of hits that Kagi is asked for.
pub const KAGI_MIN_LIMIT: usize = 1;

pub const KAGI_MAX_LIMIT: usize = 1024;

/// The number of hits asked of Kagi: `max_results` brought into
/// `KAGI_MIN_LIMIT..=KAGI_MAX_LIMIT`, or no limit when none was asked.
pub open spec fn kagi_limit(max_results: Option<usize>) -> Option<int> {
    match max_results {
        Some(m) => Some(
            if m < KAGI_MIN_LIMIT {
                KAGI_MIN_LIMIT as int
            } else if m > KAGI_MAX_LIMIT {
                KAGI_MAX_LIMIT as int
            } else {
                m as int
            },
        ),
        None => None,
    }
}

/// The news workflow for topic `news`, the search workflow otherwise.
pub open spec fn kagi_workflow(topic: Option<String>) -> KagiWorkflow {
    match topic {
        Some(t) => if t@ == "news"@ {
            KagiWorkflow::News
        } else {
            KagiWorkflow::Search
        },
        None => KagiWorkflow::Search,
    }
}

/// The client that talks to Kagi's HTTP API; it holds no state of its own,
/// the API key comes with each call.
#[derive(Debug, Clone, Copy)]
pub struct KagiOpenApiClient;

impl KagiOpenApiClient {
    pub fn new() -> (res: Self)
        ensures
            res == KagiOpenApiClient,
    {
        KagiOpenApiClient
    }

    /// The parameters of the Kagi search call that answers `request`.
    pub fn search_params(&self, request: &TavilySearchRequest) -> (res: KagiSearchParams)
        ensures
            res.query == request.query,
            match (res.limit, kagi_limit(request.max_results)) {
                (Some(l), Some(k)) => l as int == k,
                (None, None) => true,
                _ => false,
            },
            res.workflow == kagi_workflow(request.topic),
            res.format == KagiFormat::Json,
    {
        let limit: Option<i32> = match request.max_results {
            Some(m) => {
                let clamped: usize = if m < KAGI_MIN_LIMIT {
                    KAGI_MIN_LIMIT
                } else if m > KAGI_MAX_LIMIT {
                    KAGI_MAX_LIMIT
                } else {
                    m
                };
                Some(clamped as i32)
            },
            None => None,
        };
        let workflow = match &request.topic {
            Some(t) => {
                if *t == String::from_str("news") {
                    KagiWorkflow::News
                } else {
                    KagiWorkflow::Search
                }
            },
            None => KagiWorkflow::Search,
        };
        KagiSearchParams {
            query: request.query.clone(),
            limit,
            workflow,
            format: KagiFormat::Json,
        }
    }

    /// The parameters of the Kagi extract call that answers `request`: one
    /// page for each requested URL, in order.
    pub fn extract_params(&self, request: &TavilyExtractRequest) -> (res: KagiExtractParams)
        ensures
            res.pages@ == request.spec_url_list(),
            res.format == KagiFormat::Json,
    {
        KagiExtractParams { pages: request.url_list(), format: KagiFormat::Json }
    }
}

impl Default for KagiOpenApiClient {
    fn default() -> (res: Self)
        ensures
            res == KagiOpenApiClient,
    {
        Self::new()
    }
}

} // verus!
