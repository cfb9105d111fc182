//! From the provider's reply to the outcome of a lookup.
//!
//! A lookup passes four points in a row, and may end at each: the URL is
//! built, the request is sent, the body is parsed, the status is checked.
//! Sending is the caller's part; it hands over what came back.

use crate::json::{json_parse, parse_json, viewed, Json, JsonView};
use crate::model::{AsResponse, AsResponseView, LookupResult, LookupResultView};
use crate::schema::{decode_response, message_text, response_of};
use vstd::prelude::*;

verus! {

/// The URL under which the provider answers for an address: the address is
/// put behind the endpoint as it is, unescaped.
pub open spec fn url_text(ip_address: Seq<char>) -> Seq<char> {
    "https://api.bgpview.io/ip/"@ + ip_address
}

/// The reason given when the provider could not be reached.
pub open spec fn connect_failure(error: Seq<char>) -> Seq<char> {
    "Could not connect to provider: "@ + error
}

/// The reason given when the body is not the expected JSON. It ends with
/// the body itself.
pub open spec fn parse_failure(error: Seq<char>, body: Seq<char>) -> Seq<char> {
    "Could not parse response: "@ + error + ", "@ + body
}

/// The reason given when the provider reports a status other than `ok`.
pub open spec fn status_failure(status: Seq<char>) -> Seq<char> {
    "Server responded "@ + status
}

/// The outcome for a decoded reply: its prefixes as they are if the status
/// is `ok`, and a failure that names the status otherwise.
pub open spec fn checked(response: AsResponseView) -> LookupResultView {
    if response.status == "ok"@ {
        LookupResultView::Success(response.prefixes)
    } else {
        LookupResultView::Failure(status_failure(response.status))
    }
}

/// The outcome for a body, given what the parser made of it.
pub open spec fn resolution(body: Seq<char>, parsed: Result<JsonView, Seq<char>>)
    -> LookupResultView {
    match parsed {
        Err(error) => LookupResultView::Failure(parse_failure(error, body)),
        Ok(doc) => match response_of(doc) {
            Err(error) => LookupResultView::Failure(parse_failure(message_text(error), body)),
            Ok(response) => checked(response),
        },
    }
}

/// The outcome for what came back from the request: the body, or the text
/// of the transport error.
pub open spec fn reply_resolution(reply: Result<Seq<char>, Seq<char>>) -> LookupResultView {
    match reply {
        Err(error) => LookupResultView::Failure(connect_failure(error)),
        Ok(body) => resolution(body, json_parse(body)),
    }
}

/// Builds the request URL for an address. The address is not validated:
/// the provider rejects what it cannot read.
pub fn lookup_url(ip_address: &str) -> (url: String)
    ensures
        url@ == url_text(ip_address@),
{
    String::from_str("https://api.bgpview.io/ip/").concat(ip_address)
}

/// Checks the status of a decoded reply.
pub fn check_status(response: AsResponse) -> (result: LookupResult)
    ensures
        result@ == checked(response@),
{
    if response.status == String::from_str("ok") {
        LookupResult::Success(response.data)
    } else {
        LookupResult::Failure(String::from_str("Server responded ").concat(response.status.as_str()))
    }
}

/// Builds the failure for a body that could not be read.
pub fn parse_failed(error: &str, body: &str) -> (result: LookupResult)
    ensures
        result@ == LookupResultView::Failure(parse_failure(error@, body@)),
{
    LookupResult::Failure(
        String::from_str("Could not parse response: ").concat(error).concat(", ").concat(body),
    )
}

/// Turns a body and what the parser made of it into the outcome of the
/// lookup: a parse failure if the parser failed or the document has not the
/// required shape, and otherwise what the status check gives.
pub fn resolve_parsed(body: &str, parsed: Result<Json, String>) -> (result: LookupResult)
    ensures
        result@ == resolution(body@, viewed(parsed)),
{
    match parsed {
        Err(error) => parse_failed(error.as_str(), body),
        Ok(doc) => match decode_response(&doc) {
            Err(error) => {
                let text = error.message();
                parse_failed(text.as_str(), body)
            },
            Ok(response) => check_status(response),
        },
    }
}

/// Parses a body and turns it into the outcome of the lookup.
pub fn resolve_body(body: &str) -> (result: LookupResult)
    ensures
        result@ == resolution(body@, json_parse(body@)),
{
    let parsed = parse_json(body);
    resolve_parsed(body, parsed)
}

/// Turns what came back from the request into the outcome of the lookup.
/// `reply` holds the body, or the text of the transport error.
pub fn resolve_reply(reply: Result<String, String>) -> (result: LookupResult)
    ensures
        result@ == reply_resolution(viewed(reply)),
{
    match reply {
        Err(error) => LookupResult::Failure(
            String::from_str("Could not connect to provider: ").concat(error.as_str()),
        ),
        Ok(body) => resolve_body(body.as_str()),
    }
}

} // verus!
