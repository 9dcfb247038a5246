//! What the gateway is told of its surroundings.

use crate::wait::{decimal_digits, seconds_text};
use vstd::prelude::*;
use vstd::string::*;

verus! {

/// Where the validator is, how long the service may take for one request, and
/// which partition of the service is meant. All of it is handed in.
#[derive(Debug, PartialEq, Eq)]
pub struct GatewayConfig {
    /// The address of the validator's REST endpoint, without a trailing slash.
    pub endpoint: String,
    /// The longest that the service may take for one request, in seconds.
    pub max_timeout: u32,
    /// The partition of the service, where there is more than one.
    pub service_id: Option<String>,
}

/// The text in `value`, if there is one.
pub open spec fn text_of(value: Option<String>) -> Option<Seq<char>> {
    match value {
        Some(text) => Some(text@),
        None => None,
    }
}

/// The text in `value`, or the empty text.
pub open spec fn text_or_empty(value: Option<String>) -> Seq<char> {
    match value {
        Some(text) => text@,
        None => Seq::empty(),
    }
}

/// The text in `value`, or else `fallback`.
pub open spec fn text_or(value: Option<String>, fallback: Seq<char>) -> Seq<char> {
    match value {
        Some(text) => text@,
        None => fallback,
    }
}

/// Copies the text in `value`, or makes the empty text.
pub fn owned_or_empty(value: &Option<String>) -> (text: String)
    ensures
        text@ == text_or_empty(*value),
{
    match value {
        Some(text) => text.clone(),
        None => String::new(),
    }
}

/// Copies the text in `value`, or else `fallback`.
pub fn owned_or(value: &Option<String>, fallback: &String) -> (text: String)
    ensures
        text@ == text_or(*value, fallback@),
{
    match value {
        Some(text) => text.clone(),
        None => fallback.clone(),
    }
}

/// Copies `value`.
pub fn copy_text(value: &Option<String>) -> (copy: Option<String>)
    ensures
        text_of(copy) == text_of(*value),
{
    match value {
        Some(text) => Some(text.clone()),
        None => None,
    }
}

/// Where batches are posted at the validator at `endpoint`.
pub open spec fn batches_url_spec(endpoint: Seq<char>) -> Seq<char> {
    endpoint + "/batches"@
}

/// Where the status of the batch `batch_id` is asked for at the validator at
/// `endpoint`.
pub open spec fn status_link_spec(endpoint: Seq<char>, batch_id: Seq<char>) -> Seq<char> {
    endpoint + "/batch_statuses?id="@ + batch_id
}

/// Where the status of the batch `batch_id` is asked for, with `remaining`
/// seconds as the longest that the validator may hold its answer back.
pub open spec fn status_url_spec(
    endpoint: Seq<char>,
    batch_id: Seq<char>,
    remaining: u32,
) -> Seq<char> {
    status_link_spec(endpoint, batch_id) + "&wait="@ + decimal_digits(remaining as nat)
}

/// Writes where batches are posted.
pub fn batches_url(endpoint: &str) -> (url: String)
    ensures
        url@ == batches_url_spec(endpoint@),
{
    endpoint.to_owned().concat("/batches")
}

/// Writes where the status of a batch is asked for.
pub fn status_link(endpoint: &str, batch_id: &str) -> (url: String)
    ensures
        url@ == status_link_spec(endpoint@, batch_id@),
{
    endpoint.to_owned().concat("/batch_statuses?id=").concat(batch_id)
}

/// Writes where the status of a batch is asked for with a wait.
pub fn status_url(endpoint: &str, batch_id: &str, remaining: u32) -> (url: String)
    ensures
        url@ == status_url_spec(endpoint@, batch_id@, remaining),
{
    status_link(endpoint, batch_id).concat("&wait=").concat(seconds_text(remaining).as_str())
}

} // verus!
