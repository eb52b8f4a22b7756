//! The decisions of the `/search` and `/extract` endpoints: which API key a
//! request carries, whether it is served, and what is answered once Kagi has
//! replied. The serving layer reads the request, calls Kagi with the key and
//! parameters decided here, and sends back what these functions return.

use std::time::Duration;

use vstd::prelude::*;
use vstd::string::{StrSliceExecFns, StringExecFns};

use crate::adapter::{
    api_key_supplied, extract_request_error, extract_response_from_kagi,
    is_extract_response_for, is_search_response_for, missing_api_key_message,
    search_response_from_kagi, validate_api_key, validate_extract_request,
};
use crate::kagi::{kagi_error_message, KagiError, KagiExtractResponse, KagiSearchResponse};
use crate::models::{
    opt_str_view, opt_string_view, ErrorResponse, TavilyExtractRequest, TavilyExtractResponse,
    TavilySearchRequest, TavilySearchResponse,
};

verus! {

/// HTTP status of a refused request.
pub const STATUS_BAD_REQUEST: u16 = 400;

/// HTTP status of a failed call to Kagi.
pub const STATUS_BAD_GATEWAY: u16 = 502;

/// Why an endpoint did not answer with results.
#[derive(Debug, Clone)]
pub enum AppError {
    /// The request was refused before Kagi was called.
    BadRequest(ErrorResponse),
    /// Kagi could not be reached or answered with an error.
    Upstream(String),
}

impl AppError {
    /// The error answered when the call to Kagi failed.
    pub fn from_kagi(err: KagiError) -> (res: AppError)
        ensures
            res matches AppError::Upstream(m) && m@ == kagi_error_message(err),
    {
        AppError::Upstream(err.message())
    }

    /// The HTTP status of the error answer.
    pub open spec fn spec_status(self) -> u16 {
        match self {
            AppError::BadRequest(_) => STATUS_BAD_REQUEST,
            AppError::Upstream(_) => STATUS_BAD_GATEWAY,
        }
    }

    /// The text of the error answer's body.
    pub open spec fn spec_message(self) -> Seq<char> {
        match self {
            AppError::BadRequest(e) => e.error@,
            AppError::Upstream(m) => m@,
        }
    }

    /// The HTTP status and the JSON body of the error answer.
    pub fn into_response_parts(self) -> (res: (u16, ErrorResponse))
        ensures
            res.0 == self.spec_status(),
            res.1.error@ == self.spec_message(),
    {
        match self {
            AppError::BadRequest(error) => (STATUS_BAD_REQUEST, error),
            AppError::Upstream(error) => (STATUS_BAD_GATEWAY, ErrorResponse { error }),
        }
    }
}

/// The token of an `Authorization: Bearer <token>` header, when the header
/// has that form and the token is not empty.
pub open spec fn spec_bearer_token(authorization: Option<Seq<char>>) -> Option<Seq<char>> {
    match authorization {
        Some(h) => if h.len() > 7 && h.subrange(0, 7) == "Bearer "@ {
            Some(h.subrange(7, h.len() as int))
        } else {
            None
        },
        None => None,
    }
}

/// The API key of a request: the bearer token when there is one, else the
/// `api_key` of the body.
pub open spec fn spec_request_api_key(
    authorization: Option<Seq<char>>,
    body_api_key: Option<Seq<char>>,
) -> Option<Seq<char>> {
    match spec_bearer_token(authorization) {
        Some(token) => Some(token),
        None => body_api_key,
    }
}

/// Reads the token of an `Authorization` header value.
pub fn bearer_token(authorization: Option<&str>) -> (res: Option<String>)
    ensures
        opt_string_view(res) == spec_bearer_token(opt_str_view(authorization)),
{
    match authorization {
        Some(header) => {
            let len = header.unicode_len();
            if len <= 7 {
                return None;
            }
            let prefix = header.substring_char(0, 7);
            if String::from_str(prefix) == String::from_str("Bearer ") {
                Some(String::from_str(header.substring_char(7, len)))
            } else {
                None
            }
        },
        None => None,
    }
}

/// The API key of a request: the bearer token of the `Authorization` header
/// takes precedence over the `api_key` field of the body.
pub fn request_api_key(authorization: Option<&str>, body_api_key: Option<&str>) -> (res: Option<
    String,
>)
    ensures
        opt_string_view(res) == spec_request_api_key(
            opt_str_view(authorization),
            opt_str_view(body_api_key),
        ),
{
    match bearer_token(authorization) {
        Some(token) => Some(token),
        None => match body_api_key {
            Some(key) => Some(String::from_str(key)),
            None => None,
        },
    }
}

/// An optional string, as an optional string slice.
fn opt_as_str(s: &Option<String>) -> (res: Option<&str>)
    ensures
        opt_str_view(res) == opt_string_view(*s),
{
    match s {
        Some(k) => Some(k.as_str()),
        None => None,
    }
}

/// Decides whether a search request is served and with which API key; the
/// key goes with the call to Kagi.
pub fn search_api_key(authorization: Option<&str>, request: &TavilySearchRequest) -> (res: Result<
    String,
    AppError,
>)
    ensures
        ({
            let key = spec_request_api_key(
                opt_str_view(authorization),
                opt_string_view(request.api_key),
            );
            match res {
                Ok(k) => api_key_supplied(key) && key == Some(k@),
                Err(e) => !api_key_supplied(key) && (e matches AppError::BadRequest(b)
                    && b.error@ == missing_api_key_message()),
            }
        }),
{
    let api_key = request_api_key(authorization, opt_as_str(&request.api_key));
    if let Err(e) = validate_api_key(opt_as_str(&api_key)) {
        return Err(AppError::BadRequest(e));
    }
    match api_key {
        Some(key) => Ok(key),
        None => Ok(String::new()),
    }
}

/// Decides whether an extract request is served and with which API key; the
/// key goes with the call to Kagi.
pub fn extract_api_key(authorization: Option<&str>, request: &TavilyExtractRequest) -> (res:
    Result<String, AppError>)
    ensures
        ({
            let key = spec_request_api_key(
                opt_str_view(authorization),
                opt_string_view(request.api_key),
            );
            match res {
                Ok(k) => extract_request_error(*request, key) is None && key == Some(k@),
                Err(e) => e matches AppError::BadRequest(b) && extract_request_error(*request, key)
                    == Some(b.error@),
            }
        }),
{
    let api_key = request_api_key(authorization, opt_as_str(&request.api_key));
    if let Err(e) = validate_extract_request(request, opt_as_str(&api_key)) {
        return Err(AppError::BadRequest(e));
    }
    match api_key {
        Some(key) => Ok(key),
        None => Ok(String::new()),
    }
}

/// The answer of the search endpoint once Kagi has replied.
pub fn search_outcome(
    request: &TavilySearchRequest,
    upstream: Result<KagiSearchResponse, KagiError>,
    elapsed: Duration,
) -> (res: Result<TavilySearchResponse, AppError>)
    ensures
        match (upstream, res) {
            (Ok(kagi), Ok(r)) => is_search_response_for(*request, kagi, elapsed, r),
            (Err(err), Err(e)) => e matches AppError::Upstream(m) && m@ == kagi_error_message(err),
            _ => false,
        },
{
    match upstream {
        Ok(kagi) => Ok(search_response_from_kagi(request, kagi, elapsed)),
        Err(err) => Err(AppError::from_kagi(err)),
    }
}

/// The answer of the extract endpoint once Kagi has replied.
pub fn extract_outcome(upstream: Result<KagiExtractResponse, KagiError>, elapsed: Duration) -> (res:
    Result<TavilyExtractResponse, AppError>)
    ensures
        match (upstream, res) {
            (Ok(kagi), Ok(r)) => is_extract_response_for(kagi, elapsed, r),
            (Err(err), Err(e)) => e matches AppError::Upstream(m) && m@ == kagi_error_message(err),
            _ => false,
        },
{
    match upstream {
        Ok(kagi) => Ok(extract_response_from_kagi(kagi, elapsed)),
        Err(err) => Err(AppError::from_kagi(err)),
    }
}

} // verus!
