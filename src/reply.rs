//! The text that a query hands back: the records as a JSON array, or one
//! message for each kind of failure.
use vstd::prelude::*;
use rustforce::response::ErrorResponse;
use rustforce::Error as SfError;
use crate::outside::{error_response_text, json_quoted, json_string, records_text, response_debug, token_error_text};

verus! {

/// Reply to a query made without a session.
pub const NOT_LOGGED_IN_MESSAGE: &'static str = "You are not logged in to Salesforce. Please login and try again.";

/// Start of the reply to a rejected token response.
pub const TOKEN_PREFIX: &'static str = "Invalid token received from Salesforce: ";

/// Start of the reply to a failed HTTP request.
pub const HTTP_PREFIX: &'static str = "Failed to make an HTTP request to Salesforce: ";

/// Start of the reply to a response that could not be read.
pub const DESERIALIZE_PREFIX: &'static str = "Failed to deserialize response from Salesforce: ";

/// Start of the reply to a failed describe call.
pub const DESCRIBE_PREFIX: &'static str = "Error completing describe in Salesforce: ";

/// Start of the reply to a login that failed during the query.
pub const LOGIN_PREFIX: &'static str = "Error logging in to Salesforce: ";

/// One field-level error reported by Salesforce.
pub struct FieldError {
    pub message: String,
    pub error_code: String,
    pub fields: Option<Vec<String>>,
}

/// Why a query failed: one variant for each failure that the client reports.
pub enum QueryFailure {
    NotLoggedIn,
    /// Debug text of the rejected token response.
    TokenError(String),
    /// What the HTTP layer reported.
    HttpError(String),
    /// What the JSON reader reported.
    DeserializeError(String),
    /// The field-level errors, in the order Salesforce gave them.
    ErrorResponses(Vec<FieldError>),
    /// Debug text of the describe error.
    DescribeError(String),
    /// Debug text of the login error.
    LoginError(String),
}

/// The views of a list of strings.
pub open spec fn texts(v: Seq<String>) -> Seq<Seq<char>> {
    v.map_values(|s: String| s@)
}

/// The items separated by commas.
pub open spec fn joined(items: Seq<Seq<char>>) -> Seq<char>
    decreases items.len(),
{
    if items.len() == 0 {
        Seq::empty()
    } else if items.len() == 1 {
        items[0]
    } else {
        joined(items.drop_last()) + ","@ + items.last()
    }
}

/// A JSON array whose elements have the texts `items`.
pub open spec fn json_array(items: Seq<Seq<char>>) -> Seq<char> {
    "["@ + joined(items) + "]"@
}

/// The field names of an error: none where Salesforce gave no list.
pub open spec fn field_names(fields: Option<Vec<String>>) -> Seq<Seq<char>> {
    match fields {
        Some(v) => texts(v@),
        None => Seq::empty(),
    }
}

/// The JSON object of a field-level error, keys in the order `message`,
/// `error_code`, `fields`.
pub open spec fn error_object_of(message: Seq<char>, code: Seq<char>, names: Seq<Seq<char>>) -> Seq<char> {
    "{\"message\":"@ + json_quoted(message) + ",\"error_code\":"@ + json_quoted(code) + ",\"fields\":"@
        + json_array(names.map_values(|f: Seq<char>| json_quoted(f))) + "}"@
}

/// The JSON object of one field-level error.
pub open spec fn error_object(e: FieldError) -> Seq<char> {
    error_object_of(e.message@, e.error_code@, field_names(e.fields))
}

/// The JSON object of one field-level error as the client reports it.
pub open spec fn response_object(r: ErrorResponse) -> Seq<char> {
    error_object_of(r.message@, r.error_code@, field_names(r.fields))
}

/// The failure of the library's own that stands for a failure the client reports.
pub open spec fn stands_for(f: QueryFailure, e: SfError) -> bool {
    match e {
        SfError::NotLoggedIn => f is NotLoggedIn,
        SfError::TokenError(_) => f is TokenError,
        SfError::HTTPError(s) => f is HttpError && f->HttpError_0@ == s@,
        SfError::DeserializeError(s) => f is DeserializeError && f->DeserializeError_0@ == s@,
        SfError::ErrorResponses(v) => f is ErrorResponses && f->ErrorResponses_0@.map_values(
            |x: FieldError| error_object(x),
        ) == v@.map_values(|r: ErrorResponse| response_object(r)),
        SfError::DescribeError(r) => f is DescribeError && f->DescribeError_0@ == response_debug(r),
        SfError::LoginError(r) => f is LoginError && f->LoginError_0@ == response_debug(r),
    }
}

/// What the reply to a failure that the client reports says: the fixed message,
/// the message prefix before the failure's own text, or the JSON list of the
/// field-level errors.
pub open spec fn reply_for_error(e: SfError, text: Seq<char>) -> bool {
    match e {
        SfError::NotLoggedIn => text == NOT_LOGGED_IN_MESSAGE@,
        SfError::TokenError(_) => TOKEN_PREFIX@.is_prefix_of(text),
        SfError::HTTPError(s) => text == HTTP_PREFIX@ + s@,
        SfError::DeserializeError(s) => text == DESERIALIZE_PREFIX@ + s@,
        SfError::ErrorResponses(v) => text == json_array(v@.map_values(|r: ErrorResponse| response_object(r))),
        SfError::DescribeError(r) => text == DESCRIBE_PREFIX@ + response_debug(r),
        SfError::LoginError(r) => text == LOGIN_PREFIX@ + response_debug(r),
    }
}

/// The JSON array of the field-level errors, in their order.
pub open spec fn error_list(errors: Seq<FieldError>) -> Seq<char> {
    json_array(errors.map_values(|e: FieldError| error_object(e)))
}

/// The reply to a failed query.
pub open spec fn failure_text(f: QueryFailure) -> Seq<char> {
    match f {
        QueryFailure::NotLoggedIn => NOT_LOGGED_IN_MESSAGE@,
        QueryFailure::TokenError(d) => TOKEN_PREFIX@ + d@,
        QueryFailure::HttpError(d) => HTTP_PREFIX@ + d@,
        QueryFailure::DeserializeError(d) => DESERIALIZE_PREFIX@ + d@,
        QueryFailure::ErrorResponses(v) => error_list(v@),
        QueryFailure::DescribeError(d) => DESCRIBE_PREFIX@ + d@,
        QueryFailure::LoginError(d) => LOGIN_PREFIX@ + d@,
    }
}

/// The JSON array whose elements are the given JSON texts, separated by commas.
pub fn json_array_text(items: &Vec<String>) -> (r: String)
    ensures
        r@ == json_array(texts(items@)),
{
    let mut out = String::from_str("[");
    let mut i: usize = 0;
    while i < items.len()
        invariant
            i <= items@.len(),
            out@ == "["@ + joined(texts(items@).take(i as int)),
        decreases items@.len() - i,
    {
        let ghost before = texts(items@).take(i as int);
        let ghost after = texts(items@).take(i + 1);
        assert(after.drop_last() =~= before);
        if i > 0 {
            out.append(",");
        }
        out.append(items[i].as_str());
        proof {
            if i == 0 {
                assert(before =~= Seq::<Seq<char>>::empty());
                assert(out@ =~= "["@ + joined(after));
            } else {
                assert(out@ =~= "["@ + joined(after));
            }
        }
        i = i + 1;
    }
    assert(texts(items@).take(i as int) =~= texts(items@));
    out.append("]");
    out
}

/// The JSON object of one field-level error.
pub fn error_object_text(e: &FieldError) -> (r: String)
    ensures
        r@ == error_object(*e),
{
    let mut quoted: Vec<String> = Vec::new();
    match &e.fields {
        Some(names) => {
            let mut i: usize = 0;
            while i < names.len()
                invariant
                    e.fields == Some(*names),
                    i <= names@.len(),
                    quoted@.len() == i,
                    forall|k: int| 0 <= k < i ==> #[trigger] quoted@[k]@ == json_quoted(names@[k]@),
                decreases names@.len() - i,
            {
                quoted.push(json_string(names[i].as_str()));
                i = i + 1;
            }
            assert(texts(quoted@) =~= texts(names@).map_values(|f: Seq<char>| json_quoted(f)));
        }
        None => {}
    }
    assert(texts(quoted@) =~= field_names(e.fields).map_values(|f: Seq<char>| json_quoted(f)));
    let mut out = String::from_str("{\"message\":");
    out.append(json_string(e.message.as_str()).as_str());
    out.append(",\"error_code\":");
    out.append(json_string(e.error_code.as_str()).as_str());
    out.append(",\"fields\":");
    out.append(json_array_text(&quoted).as_str());
    out.append("}");
    out
}

/// The JSON array of the field-level errors.
pub fn error_list_text(errors: &Vec<FieldError>) -> (r: String)
    ensures
        r@ == error_list(errors@),
{
    let mut objects: Vec<String> = Vec::new();
    let mut i: usize = 0;
    while i < errors.len()
        invariant
            i <= errors@.len(),
            objects@.len() == i,
            forall|k: int| 0 <= k < i ==> #[trigger] objects@[k]@ == error_object(errors@[k]),
        decreases errors@.len() - i,
    {
        objects.push(error_object_text(&errors[i]));
        i = i + 1;
    }
    assert(texts(objects@) =~= errors@.map_values(|e: FieldError| error_object(e)));
    json_array_text(&objects)
}

/// The text that the user sees for a failed query.
pub fn failure_reply(f: &QueryFailure) -> (r: String)
    ensures
        r@ == failure_text(*f),
{
    match f {
        QueryFailure::NotLoggedIn => String::from_str(NOT_LOGGED_IN_MESSAGE),
        QueryFailure::TokenError(d) => String::from_str(TOKEN_PREFIX).concat(d.as_str()),
        QueryFailure::HttpError(d) => String::from_str(HTTP_PREFIX).concat(d.as_str()),
        QueryFailure::DeserializeError(d) => String::from_str(DESERIALIZE_PREFIX).concat(d.as_str()),
        QueryFailure::ErrorResponses(v) => error_list_text(v),
        QueryFailure::DescribeError(d) => String::from_str(DESCRIBE_PREFIX).concat(d.as_str()),
        QueryFailure::LoginError(d) => String::from_str(LOGIN_PREFIX).concat(d.as_str()),
    }
}

/// The reply to a query: the JSON text of the records on success, the
/// failure's message otherwise.
pub fn query_reply(outcome: Result<String, QueryFailure>) -> (r: Result<String, String>)
    ensures
        match outcome {
            Ok(records) => r == Ok::<String, String>(records),
            Err(f) => r is Err && r->Err_0@ == failure_text(f),
        },
{
    match outcome {
        Ok(records) => Ok(records),
        Err(f) => Err(failure_reply(&f)),
    }
}

/// A copy of a list of strings.
fn copy_names(names: &Vec<String>) -> (r: Vec<String>)
    ensures
        texts(r@) == texts(names@),
{
    let mut out: Vec<String> = Vec::new();
    let mut i: usize = 0;
    while i < names.len()
        invariant
            i <= names@.len(),
            out@.len() == i,
            forall|k: int| 0 <= k < i ==> #[trigger] out@[k]@ == names@[k]@,
        decreases names@.len() - i,
    {
        out.push(names[i].clone());
        i = i + 1;
    }
    assert(texts(out@) =~= texts(names@));
    out
}

/// The library's field-level error for one that the client reports.
fn field_error_of(r: &ErrorResponse) -> (f: FieldError)
    ensures
        error_object(f) == response_object(*r),
{
    let fields = match &r.fields {
        Some(names) => Some(copy_names(names)),
        None => None,
    };
    FieldError { message: r.message.clone(), error_code: r.error_code.clone(), fields }
}

/// The library's failure for a failure that the client reports; the responses
/// that only have a debug form are kept as that text.
pub fn classify(e: &SfError) -> (f: QueryFailure)
    ensures
        stands_for(f, *e),
        reply_for_error(*e, failure_text(f)),
{
    match e {
        SfError::NotLoggedIn => QueryFailure::NotLoggedIn,
        SfError::TokenError(resp) => QueryFailure::TokenError(token_error_text(resp)),
        SfError::HTTPError(text) => QueryFailure::HttpError(text.clone()),
        SfError::DeserializeError(text) => QueryFailure::DeserializeError(text.clone()),
        SfError::ErrorResponses(list) => {
            let mut out: Vec<FieldError> = Vec::new();
            let mut i: usize = 0;
            while i < list.len()
                invariant
                    i <= list@.len(),
                    out@.len() == i,
                    forall|k: int| 0 <= k < i ==> #[trigger] error_object(out@[k]) == response_object(list@[k]),
                decreases list@.len() - i,
            {
                out.push(field_error_of(&list[i]));
                i = i + 1;
            }
            assert(out@.map_values(|x: FieldError| error_object(x)) =~= list@.map_values(
                |r: ErrorResponse| response_object(r),
            ));
            QueryFailure::ErrorResponses(out)
        },
        SfError::DescribeError(resp) => QueryFailure::DescribeError(error_response_text(resp)),
        SfError::LoginError(resp) => QueryFailure::LoginError(error_response_text(resp)),
    }
}

/// The reply to what the client returned for a query: the JSON text of the
/// records, or the message for the failure.
pub fn reply_to_query(outcome: Result<Vec<serde_json::Value>, SfError>) -> (r: Result<String, String>)
    ensures
        outcome is Ok ==> r is Ok,
        outcome is Err ==> r is Err && reply_for_error(outcome->Err_0, r->Err_0@),
{
    match outcome {
        Ok(records) => query_reply(Ok(records_text(&records))),
        Err(e) => query_reply(Err(classify(&e))),
    }
}

} // verus!
