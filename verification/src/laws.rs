//! Properties that hold across the bridge's functions.

use std::time::Duration;

use vstd::prelude::*;

use crate::adapter::{
    api_key_supplied, extract_request_error, extracted_results, failed_results,
    is_search_response_for, page_markdown, requested_results, MAX_KAGI_EXTRACT_URLS,
};
use crate::http::{spec_bearer_token, spec_request_api_key};
use crate::kagi::{
    kagi_limit, kagi_workflow, KagiExtractParams, KagiPageOutput, KagiSearchParams,
    KagiSearchResponse, KagiWorkflow, KAGI_MAX_LIMIT, KAGI_MIN_LIMIT,
};
use crate::models::{TavilyExtractRequest, TavilySearchRequest, TavilySearchResponse, TavilyUrls};

verus! {

/// An extract request that is accepted carries an API key that the search
/// endpoint accepts too, and between one and `MAX_KAGI_EXTRACT_URLS` URLs.
pub proof fn lemma_accepted_extract_request(
    request: TavilyExtractRequest,
    api_key: Option<Seq<char>>,
)
    requires
        extract_request_error(request, api_key) is None,
    ensures
        api_key_supplied(api_key),
        1 <= request.spec_url_list().len() <= MAX_KAGI_EXTRACT_URLS,
{
}

/// No extract request with more URLs than Kagi accepts in one call is
/// accepted; when it carries an API key, the refusal names the limit.
pub proof fn lemma_too_many_urls_refused(request: TavilyExtractRequest, api_key: Option<Seq<char>>)
    requires
        request.spec_url_list().len() > MAX_KAGI_EXTRACT_URLS,
    ensures
        extract_request_error(request, api_key) is Some,
        api_key_supplied(api_key) ==> extract_request_error(request, api_key) == Some(
            "Kagi extract accepts at most 10 URLs per request"@,
        ),
{
}

/// Every page of a Kagi extract answer is reported exactly once: as a result
/// when it has markdown, as a failed result otherwise.
pub proof fn lemma_extract_pages_partitioned(pages: Seq<KagiPageOutput>)
    ensures
        extracted_results(pages).len() + failed_results(pages).len() == pages.len(),
        extracted_results(pages).len() == pages.filter(|p: KagiPageOutput| page_markdown(p) is Some).len(),
    decreases pages.len(),
{
    reveal_with_fuel(Seq::filter, 1);
    if pages.len() > 0 {
        lemma_extract_pages_partitioned(pages.drop_last());
    }
}

/// Every extracted result has an empty title, no images and no favicon, and
/// its content equals its raw content.
pub proof fn lemma_extracted_result_shape(pages: Seq<KagiPageOutput>, i: int)
    requires
        0 <= i < extracted_results(pages).len(),
    ensures
        extracted_results(pages)[i].content == extracted_results(pages)[i].raw_content,
        extracted_results(pages)[i].title.len() == 0,
        extracted_results(pages)[i].images.len() == 0,
        extracted_results(pages)[i].favicon is None,
    decreases pages.len(),
{
    if pages.len() > 0 {
        let earlier = extracted_results(pages.drop_last());
        if i < earlier.len() {
            lemma_extracted_result_shape(pages.drop_last(), i);
        }
    }
}

/// In a search answer, results come in order of decreasing score: the rank,
/// whose inverse is the score, grows strictly with the position, starting at
/// 1; and no more results are answered than were asked for or found.
pub proof fn lemma_search_results_ranked(
    request: TavilySearchRequest,
    kagi: KagiSearchResponse,
    elapsed: Duration,
    res: TavilySearchResponse,
    i: int,
    j: int,
)
    requires
        is_search_response_for(request, kagi, elapsed, res),
        0 <= i < j < res.results@.len(),
    ensures
        res.results@[i].rank < res.results@[j].rank,
        res.results@[0].rank == 1,
        res.results@.len() <= requested_results(request),
        res.results@.len() <= kagi.hits().len(),
{
    assert(res.results@[i].rank == i + 1);
    assert(res.results@[j].rank == j + 1);
    assert(res.results@[0].rank == 1);
}

/// A bearer token in the `Authorization` header is the request's API key,
/// whatever the body says.
pub proof fn lemma_bearer_token_takes_precedence(
    authorization: Option<Seq<char>>,
    body_api_key: Option<Seq<char>>,
)
    requires
        spec_bearer_token(authorization) is Some,
    ensures
        spec_request_api_key(authorization, body_api_key) == spec_bearer_token(authorization),
        api_key_supplied(spec_request_api_key(authorization, body_api_key)),
{
}

/// Without a bearer token, the `api_key` of the body is the request's key.
pub proof fn lemma_body_api_key_is_fallback(
    authorization: Option<Seq<char>>,
    body_api_key: Option<Seq<char>>,
)
    requires
        spec_bearer_token(authorization) is None,
    ensures
        spec_request_api_key(authorization, body_api_key) == body_api_key,
{
}

/// Kagi is never asked for fewer than `KAGI_MIN_LIMIT` or more than
/// `KAGI_MAX_LIMIT` hits, and a `max_results` within those bounds is passed on
/// unchanged.
pub proof fn lemma_kagi_limit_in_range(max_results: Option<usize>)
    ensures
        match kagi_limit(max_results) {
            Some(l) => KAGI_MIN_LIMIT <= l <= KAGI_MAX_LIMIT,
            None => max_results is None,
        },
        forall|m: usize|
            max_results == Some(m) && KAGI_MIN_LIMIT <= m <= KAGI_MAX_LIMIT ==> kagi_limit(
                max_results,
            ) == Some(m as int),
{
}

/// A search answer holds exactly as many results as were asked for, or as
/// Kagi found when that is fewer: `min(m, hits)` for `max_results = Some(m)`,
/// whatever `m` is, and `min(5, hits)` only when no number was asked for.
pub proof fn lemma_search_result_count(
    request: TavilySearchRequest,
    kagi: KagiSearchResponse,
    elapsed: Duration,
    res: TavilySearchResponse,
)
    requires
        is_search_response_for(request, kagi, elapsed, res),
    ensures
        ({
            let found: int = match kagi.data {
                Some(data) => match data.search {
                    Some(v) => v@.len() as int,
                    None => 0,
                },
                None => 0,
            };
            let asked: int = match request.max_results {
                Some(m) => m as int,
                None => 5,
            };
            res.results@.len() == if asked < found {
                asked
            } else {
                found
            }
        }),
{
}

/// Kagi's news workflow is used exactly when the request's topic is `news`;
/// any other topic, and no topic, uses the search workflow.
pub proof fn lemma_search_workflow(request: TavilySearchRequest, params: KagiSearchParams)
    requires
        params.workflow == kagi_workflow(request.topic),
    ensures
        (params.workflow == KagiWorkflow::News) <==> (request.topic matches Some(t) && t@
            == "news"@),
        (params.workflow == KagiWorkflow::Search) <==> !(request.topic matches Some(t) && t@
            == "news"@),
{
}

/// The URL list of an extract request, and so the pages sent to Kagi, are
/// the requested URLs one for one and in order: `[u]` for a single URL `u`,
/// and each element of a list `v` at its own position.
pub proof fn lemma_url_list_is_requested_urls(
    request: TavilyExtractRequest,
    urls: Seq<String>,
    params: KagiExtractParams,
)
    requires
        urls == request.spec_url_list(),
        params.pages@ == request.spec_url_list(),
    ensures
        match request.urls {
            TavilyUrls::One(u) => urls.len() == 1 && urls[0] == u,
            TavilyUrls::Many(v) => urls.len() == v@.len() && forall|i: int|
                0 <= i < v@.len() ==> #[trigger] urls[i] == v@[i],
        },
        params.pages@ == urls,
{
}

/// The token of the header `Bearer <t>` is exactly `t`, of any length, when
/// `t` is not empty; and a header yields a token `t` only when it is
/// `Bearer ` followed by `t`, with `t` not empty.
pub proof fn lemma_bearer_token_is_whole_token(header: Seq<char>, token: Seq<char>)
    ensures
        token.len() > 0 ==> spec_bearer_token(Some("Bearer "@ + token)) == Some(token),
        spec_bearer_token(Some(header)) == Some(token) ==> token.len() > 0 && header
            == "Bearer "@ + token,
        spec_bearer_token(None) is None,
{
    reveal_strlit("Bearer ");
    let h = "Bearer "@ + token;
    if token.len() > 0 {
        assert(h.subrange(0, 7) =~= "Bearer "@);
        assert(h.subrange(7, h.len() as int) =~= token);
    }
    if spec_bearer_token(Some(header)) == Some(token) {
        assert(header =~= header.subrange(0, 7) + header.subrange(7, header.len() as int));
    }
}

} // verus!
