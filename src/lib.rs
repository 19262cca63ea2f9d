//! Salesforce console backend: the session store, the choice of login endpoint,
//! and the replies that the login and query commands hand back to the user
//! interface.
pub mod endpoint;
pub mod client;
mod outside;
pub mod reply;
pub mod session;

pub use endpoint::{
    contains_at, is_sandbox_user, login_endpoint, PRODUCTION_ENDPOINT, SANDBOX_ENDPOINT, SANDBOX_MARKER,
};
pub use reply::{
    classify, error_list_text, error_object_text, failure_reply, json_array_text, query_reply,
    reply_to_query, FieldError, QueryFailure, DESCRIBE_PREFIX, DESERIALIZE_PREFIX, HTTP_PREFIX,
    LOGIN_PREFIX, NOT_LOGGED_IN_MESSAGE, TOKEN_PREFIX,
};
pub use client::{ConfiguredClient, DEFAULT_LOGIN_ENDPOINT};
pub use session::{begin_query, prepare_client, AppStructure};
