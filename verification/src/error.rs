//! Error types

use crate::resource::ErrorResponse;
use vstd::prelude::*;
use vstd::std_specs::convert::FromSpecImpl;

verus! {

/// `reqwest::header::InvalidHeaderValue` is carried through as it is: nothing is known of
/// what it holds.
#[verifier::external_type_specification]
#[verifier::external_body]
pub struct ExInvalidHeaderValue(reqwest::header::InvalidHeaderValue);

/// `reqwest::Error` is carried through as it is: nothing is known of what it holds.
#[verifier::external_type_specification]
#[verifier::external_body]
pub struct ExReqwestError(reqwest::Error);

/// `tinytemplate::error::Error` is carried through as it is: nothing is known of what it
/// holds.
#[verifier::external_type_specification]
#[verifier::external_body]
pub struct ExTinyTemplateError(tinytemplate::error::Error);

/// `serde_json::Error` is carried through as it is: nothing is known of what it holds.
#[verifier::external_type_specification]
#[verifier::external_body]
pub struct ExJsonError(serde_json::Error);

/// Error type
#[derive(Debug)]
pub enum ApiError {
    /// Missing resource data
    MissingResourceData,
    /// Invalid resource type
    InvalidResourceType,
    /// Apple music error
    MusicError(ErrorResponse),
    /// Invalid header value
    InvalidHeaderValue(reqwest::header::InvalidHeaderValue),
    /// A [`reqwest::Error`] occured
    Reqwest(reqwest::Error),
    /// A [`tinytemplate::error::Error`] occurred
    TinyTemplate(tinytemplate::error::Error),
    /// A [`serde_json::Error`] occured
    Json(serde_json::Error),
}

impl From<reqwest::header::InvalidHeaderValue> for ApiError {
    fn from(value: reqwest::header::InvalidHeaderValue) -> (error: ApiError) {
        ApiError::InvalidHeaderValue(value)
    }
}

impl FromSpecImpl<reqwest::header::InvalidHeaderValue> for ApiError {
    open spec fn obeys_from_spec() -> bool {
        true
    }

    open spec fn from_spec(value: reqwest::header::InvalidHeaderValue) -> ApiError {
        ApiError::InvalidHeaderValue(value)
    }
}

impl From<reqwest::Error> for ApiError {
    fn from(value: reqwest::Error) -> (error: ApiError) {
        ApiError::Reqwest(value)
    }
}

impl FromSpecImpl<reqwest::Error> for ApiError {
    open spec fn obeys_from_spec() -> bool {
        true
    }

    open spec fn from_spec(value: reqwest::Error) -> ApiError {
        ApiError::Reqwest(value)
    }
}

impl From<tinytemplate::error::Error> for ApiError {
    fn from(value: tinytemplate::error::Error) -> (error: ApiError) {
        ApiError::TinyTemplate(value)
    }
}

impl FromSpecImpl<tinytemplate::error::Error> for ApiError {
    open spec fn obeys_from_spec() -> bool {
        true
    }

    open spec fn from_spec(value: tinytemplate::error::Error) -> ApiError {
        ApiError::TinyTemplate(value)
    }
}

impl From<serde_json::Error> for ApiError {
    fn from(value: serde_json::Error) -> (error: ApiError) {
        ApiError::Json(value)
    }
}

impl FromSpecImpl<serde_json::Error> for ApiError {
    open spec fn obeys_from_spec() -> bool {
        true
    }

    open spec fn from_spec(value: serde_json::Error) -> ApiError {
        ApiError::Json(value)
    }
}

} // verus!
