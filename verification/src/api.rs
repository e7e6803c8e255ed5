//! The two requests that the controller takes, and what its replies mean.
//!
//! A query is posted to one path and answered with JSON; a command is
//! posted to another and answered with JSON, plain text or nothing. The
//! controller reports a failed command only in the text of its reply,
//! by the word "error", so every reply to a command is searched for it.

use crate::constants::{COMMAND_URL_SUFFIX, QUERY_URL_SUFFIX};
use crate::json::Json;
use crate::text::{contains_ignore_case, contains_ignoring_case, lower_text, occurs_at, same_ignoring_case};
use vstd::prelude::*;
use vstd::string::StringExecFns;

verus! {

/// The content type of every request.
pub const CONTENT_TYPE_JSON: &'static str = "application/json";

/// A request, ready to be posted.
#[derive(Debug)]
pub struct HttpRequest {
    /// The address that the request is posted to.
    pub url: String,
    /// The value of the `Content-Type` header.
    pub content_type: &'static str,
    /// The body.
    pub body: Json,
}

/// Why a request failed.
#[derive(Clone, Copy, Debug, PartialEq, Eq, Structural)]
pub enum ApiError {
    /// The controller could not be reached.
    Transport,
    /// The reply could not be read, or is no JSON where JSON is expected.
    Response,
    /// The reply came with a status that does not mean success.
    Status,
    /// The controller's reply reports an error.
    Device,
}

/// Makes the request for a query to the controller at `base_url`.
pub fn make_query_request(base_url: &str, payload: Json) -> (r: HttpRequest)
    ensures
        r.url@ == base_url@ + QUERY_URL_SUFFIX@,
        r.content_type == CONTENT_TYPE_JSON,
        r.body == payload,
{
    let mut url = String::from_str(base_url);
    url.append(QUERY_URL_SUFFIX);
    HttpRequest { url, content_type: CONTENT_TYPE_JSON, body: payload }
}

/// Makes the request for a command to the controller at `base_url`.
pub fn make_command_request(base_url: &str, payload: Json) -> (r: HttpRequest)
    ensures
        r.url@ == base_url@ + COMMAND_URL_SUFFIX@,
        r.content_type == CONTENT_TYPE_JSON,
        r.body == payload,
{
    let mut url = String::from_str(base_url);
    url.append(COMMAND_URL_SUFFIX);
    HttpRequest { url, content_type: CONTENT_TYPE_JSON, body: payload }
}

/// Whether the text of a reply reports an error: whether the word
/// "error" stands anywhere in it, in any case, also as part of a
/// longer word.
pub open spec fn reports_error(body: Seq<char>) -> bool {
    contains_ignoring_case(body, "error"@)
}

/// What the reply to a command means. `success` says whether its status
/// means success. A reply that reports an error is a failure whatever its
/// status.
pub fn read_command_reply(success: bool, body: &str) -> (r: Result<(), ApiError>)
    ensures
        r == if reports_error(body@) {
            Err::<(), ApiError>(ApiError::Device)
        } else if !success {
            Err(ApiError::Status)
        } else {
            Ok(())
        },
{
    if contains_ignore_case(body, "error") {
        Err(ApiError::Device)
    } else if !success {
        Err(ApiError::Status)
    } else {
        Ok(())
    }
}

/// What the reply to a query means. `success` says whether its status
/// means success, and `body` is the JSON that it holds, if it holds any.
pub fn read_query_reply(success: bool, body: Option<Json>) -> (r: Result<Json, ApiError>)
    ensures
        r == match body {
            None => Err::<Json, ApiError>(ApiError::Response),
            Some(json) => if success {
                Ok(json)
            } else {
                Err(ApiError::Status)
            },
        },
{
    match body {
        None => Err(ApiError::Response),
        Some(json) => if success {
            Ok(json)
        } else {
            Err(ApiError::Status)
        },
    }
}

/// A reply reports an error wherever the word stands, whatever comes
/// before and after it and whatever the case of its letters.
pub proof fn lemma_error_anywhere(before: Seq<char>, word: Seq<char>, after: Seq<char>)
    requires
        same_ignoring_case(word, "error"@),
    ensures
        reports_error(before + word + after),
{
    let body = before + word + after;
    let at = before.len() as int;
    assert(lower_text(word).len() == lower_text("error"@).len());
    assert(body.subrange(at, at + "error"@.len()) == word);
    assert(occurs_at(body, "error"@, at));
}

impl ApiError {
    /// What is said to the user about this failure.
    pub open spec fn message_text(self, address: Seq<char>) -> Seq<char> {
        match self {
            ApiError::Transport => "Failed to connect to iZone controller at "@ + address
                + ".\nEnsure the IP address is correct and the controller is reachable in your network."@,
            ApiError::Response => "Unexpected response from iZone controller at "@ + address
                + ".\nEnsure your configuration has the correct iZone IP and the controller is reachable in your network."@,
            ApiError::Status => "The iZone controller at "@ + address
                + " answered with a status that reports a failure."@,
            ApiError::Device => "The iZone controller at "@ + address + " reported an error."@,
        }
    }

    /// The message for this failure; `address` is the controller's address.
    pub fn message(&self, address: &str) -> (r: String)
        ensures
            r@ == self.message_text(address@),
    {
        match self {
            ApiError::Transport => {
                let mut out = String::from_str("Failed to connect to iZone controller at ");
                out.append(address);
                out.append(
                    ".\nEnsure the IP address is correct and the controller is reachable in your network.",
                );
                out
            },
            ApiError::Response => {
                let mut out = String::from_str("Unexpected response from iZone controller at ");
                out.append(address);
                out.append(
                    ".\nEnsure your configuration has the correct iZone IP and the controller is reachable in your network.",
                );
                out
            },
            ApiError::Status => {
                let mut out = String::from_str("The iZone controller at ");
                out.append(address);
                out.append(" answered with a status that reports a failure.");
                out
            },
            ApiError::Device => {
                let mut out = String::from_str("The iZone controller at ");
                out.append(address);
                out.append(" reported an error.");
                out
            },
        }
    }
}

} // verus!
