//! What the library takes on trust from the Salesforce client, from serde_json
//! and from `Arc`.
use std::sync::Arc;
use vstd::prelude::*;

verus! {

#[verifier::external_type_specification]
#[verifier::external_body]
pub struct ExClient(rustforce::Client);

#[verifier::external_type_specification]
pub struct ExSfError(rustforce::Error);

#[verifier::external_type_specification]
pub struct ExErrorResponse(rustforce::response::ErrorResponse);

#[verifier::external_type_specification]
#[verifier::external_body]
pub struct ExTokenErrorResponse(rustforce::response::TokenErrorResponse);

#[verifier::external_type_specification]
#[verifier::external_body]
pub struct ExValue(serde_json::Value);

/// The lower-case hexadecimal digit of `n`, below sixteen.
pub open spec fn hex_digit(n: u32) -> char {
    seq!['0', '1', '2', '3', '4', '5', '6', '7', '8', '9', 'a', 'b', 'c', 'd', 'e', 'f'][n as int]
}

/// How JSON writes one character of a string: quote and backslash behind a
/// backslash, the five common control characters by their short escapes, the
/// other characters below space as `\u00XX`, everything else as it is.
pub open spec fn escaped_char(c: char) -> Seq<char> {
    if c == '"' {
        seq!['\\', '"']
    } else if c == '\\' {
        seq!['\\', '\\']
    } else if c == '\x08' {
        seq!['\\', 'b']
    } else if c == '\t' {
        seq!['\\', 't']
    } else if c == '\n' {
        seq!['\\', 'n']
    } else if c == '\x0C' {
        seq!['\\', 'f']
    } else if c == '\r' {
        seq!['\\', 'r']
    } else if (c as u32) < 0x20 {
        seq!['\\', 'u', '0', '0', hex_digit((c as u32) / 16), hex_digit((c as u32) % 16)]
    } else {
        seq![c]
    }
}

/// The characters of a string as JSON writes them between the quotes.
pub open spec fn escaped(s: Seq<char>) -> Seq<char>
    decreases s.len(),
{
    if s.len() == 0 {
        Seq::empty()
    } else {
        escaped(s.drop_last()) + escaped_char(s.last())
    }
}

/// The JSON text of a string: its escaped characters between quotes.
pub open spec fn json_quoted(s: Seq<char>) -> Seq<char> {
    seq!['"'] + escaped(s) + seq!['"']
}

/// Relies on Arc::clone: a second handle to the same client.
#[verifier::external_body]
pub(crate) fn share_client(client: &Arc<rustforce::Client>) -> (r: Arc<rustforce::Client>)
    ensures
        r == *client,
{
    Arc::clone(client)
}

/// Relies on serde_json::to_string on a `str` (format_escaped_str): the JSON
/// string literal of `s`, escaped as `json_quoted` says.
/// Serialising a `str` into memory does not fail, so the error arm is never taken.
#[verifier::external_body]
pub(crate) fn json_string(s: &str) -> (r: String)
    ensures
        r@ == json_quoted(s@),
{
    match serde_json::to_string(s) {
        Ok(text) => text,
        Err(_) => String::new(),
    }
}

/// Relies on serde_json::to_string on a list of `Value`s: the compact JSON
/// array of the records. A `Value` has string keys only, so the error arm is
/// never taken.
#[verifier::external_body]
pub(crate) fn records_text(records: &Vec<serde_json::Value>) -> String {
    match serde_json::to_string(records) {
        Ok(text) => text,
        Err(_) => String::new(),
    }
}

/// Relies on the derived Debug of rustforce's TokenErrorResponse: its text.
#[verifier::external_body]
pub(crate) fn token_error_text(resp: &rustforce::response::TokenErrorResponse) -> String {
    format!("{:?}", resp)
}

/// The debug text of an error response with these message, code and field names.
pub uninterp spec fn error_response_debug(
    message: Seq<char>,
    code: Seq<char>,
    fields: Option<Seq<Seq<char>>>,
) -> Seq<char>;

/// The views of a list of strings that may be missing.
pub open spec fn optional_texts(fields: Option<Vec<String>>) -> Option<Seq<Seq<char>>> {
    match fields {
        Some(v) => Some(v@.map_values(|s: String| s@)),
        None => None,
    }
}

/// The debug text of an error response as the client reports it.
pub open spec fn response_debug(resp: rustforce::response::ErrorResponse) -> Seq<char> {
    error_response_debug(resp.message@, resp.error_code@, optional_texts(resp.fields))
}

/// Relies on the derived Debug of rustforce's ErrorResponse: its text depends on
/// the three fields alone.
#[verifier::external_body]
pub(crate) fn error_response_text(resp: &rustforce::response::ErrorResponse) -> (r: String)
    ensures
        r@ == error_response_debug(resp.message@, resp.error_code@, optional_texts(resp.fields)),
{
    format!("{:?}", resp)
}

} // verus!
