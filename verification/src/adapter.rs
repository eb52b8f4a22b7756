//! Validation of incoming requests and translation of Kagi answers into
//! Tavily-shaped responses.

use std::time::Duration;

use vstd::prelude::*;
use vstd::string::StringExecFns;

use crate::kagi::{KagiExtractResponse, KagiPageOutput, KagiSearchResponse};
use crate::models::{
    opt_str_view, strings_view, ErrorResponse, ExtractResultView, FailedResultView,
    TavilyExtractRequest, TavilyExtractResponse, TavilyExtractResult, TavilyFailedResult,
    TavilySearchRequest, TavilySearchResponse, TavilySearchResult,
};

verus! {

/// The error text answered when no API key was supplied.
pub open spec fn missing_api_key_message() -> Seq<char> {
    "Authorization bearer token or api_key is required"@
}

/// An API key counts as supplied when it is present and not empty.
pub open spec fn api_key_supplied(api_key: Option<Seq<char>>) -> bool {
    match api_key {
        Some(key) => key.len() > 0,
        None => false,
    }
}

/// Accepts a request only when an API key was supplied.
pub fn validate_api_key(api_key: Option<&str>) -> (res: Result<(), ErrorResponse>)
    ensures
        res is Ok <==> api_key_supplied(opt_str_view(api_key)),
        res matches Err(e) ==> e.error@ == missing_api_key_message(),
{
    let supplied = match api_key {
        Some(key) => !key.is_empty(),
        None => false,
    };
    if !supplied {
        return Err(ErrorResponse { error: String::from_str("Authorization bearer token or api_key is required") });
    }
    Ok(())
}

/// The most URLs that Kagi extracts in one request.
pub const MAX_KAGI_EXTRACT_URLS: usize = 10;

/// The number of search results answered when the request names none.
pub const DEFAULT_MAX_RESULTS: usize = 5;

/// Why an extract request is refused, checked in this order; `None` when it
/// is accepted.
pub open spec fn extract_request_error(
    request: TavilyExtractRequest,
    api_key: Option<Seq<char>>,
) -> Option<Seq<char>> {
    let n = request.spec_url_list().len();
    if !api_key_supplied(api_key) {
        Some(missing_api_key_message())
    } else if n == 0 {
        Some("urls must contain at least one URL"@)
    } else if n > MAX_KAGI_EXTRACT_URLS {
        Some("Kagi extract accepts at most 10 URLs per request"@)
    } else {
        match request.chunks_per_source {
            Some(chunks) => if request.query is None {
                Some("chunks_per_source requires query"@)
            } else if !(1 <= chunks <= 5) {
                Some("chunks_per_source must be between 1 and 5"@)
            } else {
                None
            },
            None => None,
        }
    }
}

/// Accepts an extract request that Kagi can serve: an API key, one to
/// `MAX_KAGI_EXTRACT_URLS` URLs, and `chunks_per_source` only together with a
/// query and only from 1 to 5.
pub fn validate_extract_request(request: &TavilyExtractRequest, api_key: Option<&str>) -> (res:
    Result<(), ErrorResponse>)
    ensures
        match res {
            Ok(()) => extract_request_error(*request, opt_str_view(api_key)) is None,
            Err(e) => extract_request_error(*request, opt_str_view(api_key)) == Some(e.error@),
        },
{
    validate_api_key(api_key)?;

    let urls = request.url_list();
    if urls.len() == 0 {
        return Err(ErrorResponse { error: String::from_str("urls must contain at least one URL") });
    }
    if urls.len() > MAX_KAGI_EXTRACT_URLS {
        return Err(
            ErrorResponse {
                error: String::from_str("Kagi extract accepts at most 10 URLs per request"),
            },
        );
    }
    if let Some(chunks_per_source) = request.chunks_per_source {
        if request.query.is_none() {
            return Err(ErrorResponse { error: String::from_str("chunks_per_source requires query") });
        }
        if !(1 <= chunks_per_source && chunks_per_source <= 5) {
            return Err(
                ErrorResponse { error: String::from_str("chunks_per_source must be between 1 and 5") },
            );
        }
    }
    Ok(())
}

/// The text of an optional snippet; empty when there is none.
pub open spec fn snippet_text(snippet: Option<String>) -> Seq<char> {
    match snippet {
        Some(t) => t@,
        None => Seq::empty(),
    }
}

/// The number of results asked for: `max_results`, or `DEFAULT_MAX_RESULTS`.
pub open spec fn requested_results(request: TavilySearchRequest) -> nat {
    match request.max_results {
        Some(m) => m as nat,
        None => DEFAULT_MAX_RESULTS as nat,
    }
}

/// The number of results answered: the Kagi hits, cut to the number asked for.
pub open spec fn search_result_count(request: TavilySearchRequest, kagi: KagiSearchResponse) -> nat {
    let n = kagi.hits().len();
    let max = requested_results(request);
    if n < max {
        n
    } else {
        max
    }
}

/// `result` is the Tavily form of the Kagi hit at position `i`.
pub open spec fn result_from_hit(
    result: TavilySearchResult,
    hit: crate::kagi::KagiSearchResult,
    i: int,
) -> bool {
    &&& result.title == hit.title
    &&& result.url == hit.url
    &&& result.content@ == snippet_text(hit.snippet)
    &&& result.rank == i + 1
    &&& result.raw_content is None
    &&& result.favicon is None
}

/// `res` is the Tavily answer to `request` built from the Kagi answer `kagi`:
/// the query echoed, no answer and no images, and the first Kagi hits, in
/// Kagi's order, ranked from 1.
pub open spec fn is_search_response_for(
    request: TavilySearchRequest,
    kagi: KagiSearchResponse,
    elapsed: Duration,
    res: TavilySearchResponse,
) -> bool {
    &&& res.query == request.query
    &&& res.answer is None
    &&& res.images@.len() == 0
    &&& res.response_time == elapsed
    &&& res.results@.len() == search_result_count(request, kagi)
    &&& forall|i: int|
        0 <= i < res.results@.len() ==> result_from_hit(
            #[trigger] res.results@[i],
            kagi.hits()[i],
            i,
        )
}

/// Builds the Tavily answer to a search request from Kagi's answer.
pub fn search_response_from_kagi(
    request: &TavilySearchRequest,
    response: KagiSearchResponse,
    elapsed: Duration,
) -> (res: TavilySearchResponse)
    ensures
        is_search_response_for(*request, response, elapsed, res),
{
    let ghost kagi = response;
    let hits: Vec<crate::kagi::KagiSearchResult> = match response.data {
        Some(data) => match data.search {
            Some(v) => v,
            None => Vec::new(),
        },
        None => Vec::new(),
    };
    assert(hits@ == kagi.hits());
    let max_results: usize = match request.max_results {
        Some(m) => m,
        None => DEFAULT_MAX_RESULTS,
    };
    let count: usize = if hits.len() < max_results {
        hits.len()
    } else {
        max_results
    };
    let mut results: Vec<TavilySearchResult> = Vec::new();
    let mut i: usize = 0;
    while i < count
        invariant
            count <= hits@.len(),
            i <= count,
            results@.len() == i,
            forall|j: int| 0 <= j < i ==> result_from_hit(#[trigger] results@[j], hits@[j], j),
        decreases count - i,
    {
        let hit = &hits[i];
        let content = match &hit.snippet {
            Some(snippet) => snippet.clone(),
            None => String::new(),
        };
        results.push(
            TavilySearchResult {
                title: hit.title.clone(),
                url: hit.url.clone(),
                content,
                rank: i + 1,
                raw_content: None,
                favicon: None,
            },
        );
        i = i + 1;
    }
    TavilySearchResponse {
        query: request.query.clone(),
        answer: None,
        images: Vec::new(),
        results,
        response_time: elapsed,
    }
}

/// The error reported for a page that Kagi returned with neither content
/// nor an error.
pub open spec fn no_content_message() -> Seq<char> {
    "No extracted content returned by Kagi"@
}

/// The markdown of a page, when Kagi extracted some.
pub open spec fn page_markdown(page: KagiPageOutput) -> Option<String> {
    match page.markdown {
        Some(Some(m)) => Some(m),
        _ => None,
    }
}

/// The extracted pages among `pages`, in order, as Tavily results: the
/// markdown is both the content and the raw content, the title is empty.
pub open spec fn extracted_results(pages: Seq<KagiPageOutput>) -> Seq<ExtractResultView>
    decreases pages.len(),
{
    if pages.len() == 0 {
        Seq::empty()
    } else {
        let earlier = extracted_results(pages.drop_last());
        let page = pages.last();
        match page_markdown(page) {
            Some(m) => earlier.push(
                ExtractResultView {
                    url: page.url@,
                    title: Seq::empty(),
                    content: m@,
                    raw_content: m@,
                    images: Seq::empty(),
                    favicon: None,
                },
            ),
            None => earlier,
        }
    }
}

/// The pages among `pages` without markdown, in order, each with Kagi's
/// error text or, lacking one, `no_content_message()`.
pub open spec fn failed_results(pages: Seq<KagiPageOutput>) -> Seq<FailedResultView>
    decreases pages.len(),
{
    if pages.len() == 0 {
        Seq::empty()
    } else {
        let earlier = failed_results(pages.drop_last());
        let page = pages.last();
        match page_markdown(page) {
            Some(_) => earlier,
            None => earlier.push(
                FailedResultView {
                    url: page.url@,
                    error: match page.error {
                        Some(e) => e@,
                        None => no_content_message(),
                    },
                },
            ),
        }
    }
}

/// `res` is the Tavily answer built from the Kagi extract answer `kagi`.
pub open spec fn is_extract_response_for(
    kagi: KagiExtractResponse,
    elapsed: Duration,
    res: TavilyExtractResponse,
) -> bool {
    &&& res.results@.map_values(|r: TavilyExtractResult| r@) == extracted_results(kagi.data@)
    &&& res.failed_results@.map_values(|f: TavilyFailedResult| f@) == failed_results(kagi.data@)
    &&& strings_view(res.failed_urls@) == failed_results(kagi.data@).map_values(
        |f: FailedResultView| f.url,
    )
    &&& res.response_time == elapsed
}

/// Builds the Tavily answer to an extract request from Kagi's answer: each
/// page with markdown becomes a result, each other page a failed result
/// whose URL is also listed among the failed URLs.
pub fn extract_response_from_kagi(response: KagiExtractResponse, elapsed: Duration) -> (res:
    TavilyExtractResponse)
    ensures
        is_extract_response_for(response, elapsed, res),
{
    let pages = &response.data;
    let n: usize = pages.len();
    let mut results: Vec<TavilyExtractResult> = Vec::new();
    let mut failed: Vec<TavilyFailedResult> = Vec::new();
    let mut i: usize = 0;
    while i < n
        invariant
            n == pages@.len(),
            i <= n,
            results@.map_values(|r: TavilyExtractResult| r@) == extracted_results(
                pages@.subrange(0, i as int),
            ),
            failed@.map_values(|f: TavilyFailedResult| f@) == failed_results(
                pages@.subrange(0, i as int),
            ),
        decreases n - i,
    {
        let page = &pages[i];
        proof {
            assert(pages@.subrange(0, i + 1).drop_last() =~= pages@.subrange(0, i as int));
            assert(pages@.subrange(0, i + 1).last() == pages@[i as int]);
        }
        let ghost old_results = results@;
        let ghost old_failed = failed@;
        let markdown: Option<&String> = match &page.markdown {
            Some(Some(m)) => Some(m),
            _ => None,
        };
        match markdown {
            Some(m) => {
                results.push(
                    TavilyExtractResult {
                        url: page.url.clone(),
                        title: String::new(),
                        content: m.clone(),
                        raw_content: m.clone(),
                        images: Vec::new(),
                        favicon: None,
                    },
                );
                proof {
                    assert(results@.map_values(|r: TavilyExtractResult| r@) =~= old_results.map_values(
                        |r: TavilyExtractResult| r@,
                    ).push(results@.last()@));
                    assert(strings_view(results@.last().images@) =~= Seq::<Seq<char>>::empty());
                }
            },
            None => {
                let error = match &page.error {
                    Some(e) => e.clone(),
                    None => String::from_str("No extracted content returned by Kagi"),
                };
                failed.push(TavilyFailedResult { url: page.url.clone(), error });
                proof {
                    assert(failed@.map_values(|f: TavilyFailedResult| f@) =~= old_failed.map_values(
                        |f: TavilyFailedResult| f@,
                    ).push(failed@.last()@));
                }
            },
        }
        i = i + 1;
    }
    proof {
        assert(pages@.subrange(0, n as int) =~= pages@);
    }
    let mut failed_urls: Vec<String> = Vec::new();
    let m: usize = failed.len();
    let mut k: usize = 0;
    while k < m
        invariant
            m == failed@.len(),
            k <= m,
            failed_urls@.len() == k,
            forall|j: int| 0 <= j < k ==> #[trigger] failed_urls@[j] == failed@[j].url,
        decreases m - k,
    {
        failed_urls.push(failed[k].url.clone());
        k = k + 1;
    }
    proof {
        let fv = failed@.map_values(|f: TavilyFailedResult| f@);
        assert(strings_view(failed_urls@) =~= fv.map_values(|f: FailedResultView| f.url));
    }
    TavilyExtractResponse {
        results,
        failed_results: failed,
        failed_urls,
        response_time: elapsed,
    }
}

} // verus!
