use kagi_tavily_bridge::http::{
    bearer_token, extract_api_key, extract_outcome, request_api_key, search_api_key,
    search_outcome, AppError, STATUS_BAD_GATEWAY, STATUS_BAD_REQUEST,
};
use kagi_tavily_bridge::kagi::{
    KagiError, KagiExtractResponse, KagiFormat, KagiOpenApiClient, KagiPageOutput,
    KagiSearchData, KagiSearchResponse, KagiSearchResult, KagiWorkflow,
};
use kagi_tavily_bridge::models::{TavilyExtractRequest, TavilySearchRequest, TavilyUrls};
use std::time::Duration;

fn search_request(api_key: Option<&str>, max_results: Option<usize>) -> TavilySearchRequest {
    TavilySearchRequest {
        api_key: api_key.map(|k| k.to_string()),
        query: "hello".to_string(),
        max_results,
        include_images: false,
        include_answer: None,
        search_depth: None,
        topic: None,
    }
}

fn mock_search_answer() -> KagiSearchResponse {
    KagiSearchResponse {
        data: Some(KagiSearchData {
            search: Some(vec![KagiSearchResult {
                url: "https://example.com/result".to_string(),
                title: "Result".to_string(),
                snippet: Some("Search content".to_string()),
            }]),
        }),
    }
}

fn mock_extract_answer() -> KagiExtractResponse {
    KagiExtractResponse {
        data: vec![KagiPageOutput {
            url: "https://example.com/doc".to_string(),
            markdown: Some(Some("Extracted content".to_string())),
            error: None,
        }],
    }
}

#[test]
fn search_endpoint_returns_hermes_fields() {
    let request = search_request(Some("dummy"), Some(1));
    let key = search_api_key(None, &request).unwrap();
    assert_eq!(key, "dummy");
    let response = search_outcome(&request, Ok(mock_search_answer()), Duration::from_millis(3)).unwrap();
    assert_eq!(response.results[0].title, "Result");
    assert_eq!(response.results[0].url, "https://example.com/result");
    assert_eq!(response.results[0].content, "Search content");
}

#[test]
fn extract_endpoint_returns_hermes_fields() {
    let request = TavilyExtractRequest {
        api_key: Some("dummy".to_string()),
        urls: TavilyUrls::Many(vec!["https://example.com/doc".to_string()]),
        include_images: false,
        extract_depth: None,
        query: None,
        chunks_per_source: None,
    };
    let key = extract_api_key(None, &request).unwrap();
    assert_eq!(key, "dummy");
    let response = extract_outcome(Ok(mock_extract_answer()), Duration::from_millis(3)).unwrap();
    assert_eq!(response.results[0].url, "https://example.com/doc");
    assert_eq!(response.results[0].title, "");
    assert_eq!(response.results[0].content, "Extracted content");
    assert_eq!(response.results[0].raw_content, "Extracted content");
    assert_eq!(response.failed_results.len(), 0);
}

#[test]
fn search_endpoint_requires_api_key() {
    let request = search_request(None, None);
    let error = search_api_key(None, &request).unwrap_err();
    let (status, body) = error.into_response_parts();
    assert_eq!(status, STATUS_BAD_REQUEST);
    assert_eq!(status, 400);
    assert_eq!(
        body.error,
        "Authorization bearer token or api_key is required"
    );
}

#[test]
fn search_endpoint_accepts_authorization_bearer() {
    let request = search_request(None, Some(1));
    let key = search_api_key(Some("Bearer kg_test"), &request).unwrap();
    assert_eq!(key, "kg_test");
}

#[test]
fn bearer_token_parsing() {
    assert_eq!(bearer_token(Some("Bearer abc")), Some("abc".to_string()));
    assert_eq!(bearer_token(Some("Bearer ")), None);
    assert_eq!(bearer_token(Some("bearer abc")), None);
    assert_eq!(bearer_token(Some("Basic abc")), None);
    assert_eq!(bearer_token(Some("Bearer")), None);
    assert_eq!(bearer_token(None), None);
    assert_eq!(bearer_token(Some("Bearer  x")), Some(" x".to_string()));
}

#[test]
fn bearer_token_takes_precedence_over_body_key() {
    assert_eq!(
        request_api_key(Some("Bearer header_key"), Some("body_key")),
        Some("header_key".to_string())
    );
    assert_eq!(
        request_api_key(Some("Bearer "), Some("body_key")),
        Some("body_key".to_string())
    );
    assert_eq!(request_api_key(None, None), None);
    let request = search_request(Some("body_key"), None);
    assert_eq!(
        search_api_key(Some("Bearer header_key"), &request).unwrap(),
        "header_key"
    );
}

#[test]
fn empty_body_key_is_refused() {
    let request = search_request(Some(""), None);
    assert!(matches!(
        search_api_key(None, &request),
        Err(AppError::BadRequest(_))
    ));
}

#[test]
fn extract_endpoint_refuses_too_many_urls() {
    let request = TavilyExtractRequest {
        api_key: None,
        urls: TavilyUrls::Many(
            (0..11)
                .map(|idx| format!("https://example.com/{idx}"))
                .collect(),
        ),
        include_images: false,
        extract_depth: None,
        query: None,
        chunks_per_source: None,
    };
    let error = extract_api_key(Some("Bearer kg_test"), &request).unwrap_err();
    let (status, body) = error.into_response_parts();
    assert_eq!(status, 400);
    assert_eq!(
        body.error,
        "Kagi extract accepts at most 10 URLs per request"
    );
}

#[test]
fn upstream_failure_is_bad_gateway() {
    let request = search_request(Some("dummy"), None);
    let error = search_outcome(
        &request,
        Err(KagiError::Upstream("connection refused".to_string())),
        Duration::ZERO,
    )
    .unwrap_err();
    let (status, body) = error.into_response_parts();
    assert_eq!(status, STATUS_BAD_GATEWAY);
    assert_eq!(status, 502);
    assert_eq!(body.error, "Kagi upstream error: connection refused");

    let error = extract_outcome(Err(KagiError::Upstream("500".to_string())), Duration::ZERO).unwrap_err();
    match error {
        AppError::Upstream(message) => assert_eq!(message, "Kagi upstream error: 500"),
        AppError::BadRequest(_) => panic!("expected an upstream error"),
    }
}

#[test]
fn kagi_error_message_names_upstream() {
    let err = KagiError::Upstream("boom".to_string());
    assert_eq!(err.message(), "Kagi upstream error: boom");
    match AppError::from_kagi(err) {
        AppError::Upstream(message) => assert_eq!(message, "Kagi upstream error: boom"),
        AppError::BadRequest(_) => panic!("expected an upstream error"),
    }
}

#[test]
fn search_params_clamp_limit_and_pick_workflow() {
    let client = KagiOpenApiClient::new();
    let mut request = search_request(None, None);
    let params = client.search_params(&request);
    assert_eq!(params.query, "hello");
    assert_eq!(params.limit, None);
    assert_eq!(params.workflow, KagiWorkflow::Search);
    assert_eq!(params.format, KagiFormat::Json);

    request.max_results = Some(0);
    assert_eq!(client.search_params(&request).limit, Some(1));
    request.max_results = Some(7);
    assert_eq!(client.search_params(&request).limit, Some(7));
    request.max_results = Some(5000);
    assert_eq!(client.search_params(&request).limit, Some(1024));

    request.topic = Some("news".to_string());
    assert_eq!(client.search_params(&request).workflow, KagiWorkflow::News);
    request.topic = Some("general".to_string());
    assert_eq!(client.search_params(&request).workflow, KagiWorkflow::Search);
    request.topic = Some("News".to_string());
    assert_eq!(client.search_params(&request).workflow, KagiWorkflow::Search);
}

#[test]
fn extract_params_list_every_url() {
    let client = KagiOpenApiClient::default();
    let request = TavilyExtractRequest {
        api_key: None,
        urls: TavilyUrls::One("https://example.com/one".to_string()),
        include_images: false,
        extract_depth: None,
        query: None,
        chunks_per_source: None,
    };
    let params = client.extract_params(&request);
    assert_eq!(params.pages, vec!["https://example.com/one".to_string()]);
    assert_eq!(params.format, KagiFormat::Json);
}
