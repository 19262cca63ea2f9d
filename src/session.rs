//! The session store shared by the login and query commands, and the steps of
//! those commands that decide what happens to it.
use std::sync::Arc;
use vstd::prelude::*;
use vstd::string::to_string_from_display_ensures;
use rustforce::Client;
use rustforce::Error as SfError;
use crate::endpoint::{endpoint_for, login_endpoint};
use crate::client::ConfiguredClient;
use crate::outside::share_client;
use crate::reply::NOT_LOGGED_IN_MESSAGE;

verus! {

/// The session: at most one client that has logged in.
pub struct AppStructure {
    pub sf_client: Option<Arc<Client>>,
}

impl View for AppStructure {
    type V = Option<Client>;

    /// The client of the session, or none while nobody has logged in.
    open spec fn view(&self) -> Option<Client> {
        match self.sf_client {
            Some(h) => Some(*h),
            None => None,
        }
    }
}

/// The session after a login whose outcome is `outcome`: the new client where
/// the login succeeded, the session as it was where it failed.
pub open spec fn after_login(session: Option<Client>, outcome: Option<Client>) -> Option<Client> {
    match outcome {
        Some(c) => Some(c),
        None => session,
    }
}

/// The reply that a query gets before it reaches the client, given the
/// session it found: none where there is a client to ask.
pub open spec fn early_reply(snapshot: Option<Arc<Client>>) -> Option<Seq<char>> {
    match snapshot {
        Some(_) => None,
        None => Some(NOT_LOGGED_IN_MESSAGE@),
    }
}

/// The session after logins that finished in the order of `outcomes`, each
/// the new client of a successful login or none for a failed one.
pub open spec fn after_logins(session: Option<Client>, outcomes: Seq<Option<Client>>) -> Option<Client>
    decreases outcomes.len(),
{
    if outcomes.len() == 0 {
        session
    } else {
        after_login(after_logins(session, outcomes.drop_last()), outcomes.last())
    }
}

/// Logins and queries take the store one at a time and queries only read it, so
/// however they interleave the store ends with the session it started with, where
/// no login succeeded, or with the whole client of the last login that succeeded,
/// never a mix of two.
pub proof fn lemma_last_login_wins(session: Option<Client>, outcomes: Seq<Option<Client>>)
    ensures
        (forall|i: int| 0 <= i < outcomes.len() ==> #[trigger] outcomes[i] is None) ==> after_logins(
            session,
            outcomes,
        ) == session,
        after_logins(session, outcomes) == session || exists|i: int|
            0 <= i < outcomes.len() && outcomes[i] is Some && #[trigger] outcomes[i] == after_logins(session, outcomes)
                && forall|j: int| i < j < outcomes.len() ==> #[trigger] outcomes[j] is None,
    decreases outcomes.len(),
{
    if outcomes.len() > 0 {
        let prefix = outcomes.drop_last();
        lemma_last_login_wins(session, prefix);
        let n = outcomes.len() - 1;
        if outcomes.last() is None {
            if forall|i: int| 0 <= i < outcomes.len() ==> #[trigger] outcomes[i] is None {
                assert forall|i: int| 0 <= i < prefix.len() implies #[trigger] prefix[i] is None by {
                    assert(prefix[i] == outcomes[i]);
                }
            }
            if after_logins(session, outcomes) != session {
                let i = choose|i: int|
                    0 <= i < prefix.len() && prefix[i] is Some && #[trigger] prefix[i] == after_logins(session, prefix)
                        && forall|j: int| i < j < prefix.len() ==> #[trigger] prefix[j] is None;
                assert(outcomes[i] == prefix[i]);
                assert forall|j: int| i < j < outcomes.len() implies #[trigger] outcomes[j] is None by {
                    if j < n {
                        assert(outcomes[j] == prefix[j]);
                    }
                }
            }
        } else {
            assert(outcomes[n] == after_logins(session, outcomes));
        }
    }
}

/// A query made while nobody has logged in gets the fixed reply that asks for a
/// login, before any request could fail on the way or in reading.
pub proof fn lemma_query_needs_login(store: AppStructure)
    requires
        !store.is_authenticated(),
    ensures
        early_reply(store.sf_client) == Some(NOT_LOGGED_IN_MESSAGE@),
{
}

impl AppStructure {
    /// Whether a login has succeeded.
    pub open spec fn is_authenticated(&self) -> bool {
        self.sf_client is Some
    }

    /// A session that nobody has logged in to.
    pub fn new() -> (r: Self)
        ensures
            !r.is_authenticated(),
            r@ is None,
    {
        AppStructure { sf_client: None }
    }

    /// A handle to the current client, taken while the store is held.
    pub fn get(&self) -> (r: Option<Arc<Client>>)
        ensures
            r == self.sf_client,
    {
        match &self.sf_client {
            Some(h) => Some(share_client(h)),
            None => None,
        }
    }

    /// Replaces the session by `client`.
    pub fn set(&mut self, client: Client)
        ensures
            final(self)@ == Some(client),
    {
        self.sf_client = Some(Arc::new(client));
    }

    /// Records the outcome of a login made with `client`: on success the client
    /// becomes the session, whatever was there; on failure the session is left
    /// as it was and the reply is the client's description of the failure.
    pub fn record_login(&mut self, client: Client, outcome: Result<(), SfError>) -> (r: Result<String, String>)
        ensures
            final(self)@ == after_login(old(self)@, if outcome is Ok { Some(client) } else { None }),
            outcome is Ok ==> final(self)@ == Some(client) && r is Ok && r->Ok_0@ == "Logged in"@,
            outcome is Err ==> *final(self) == *old(self) && r is Err && to_string_from_display_ensures::<SfError>(
                &outcome->Err_0,
                r->Err_0,
            ),
    {
        match outcome {
            Ok(()) => {
                self.set(client);
                Ok(String::from_str("Logged in"))
            },
            Err(e) => Err(e.to_string()),
        }
    }
}

impl Default for AppStructure {
    fn default() -> (r: Self)
        ensures
            r@ is None,
    {
        AppStructure::new()
    }
}

/// The first step of a query, on the handle taken from the store: the client
/// to ask, or the reply for a query made before any login.
pub fn begin_query(snapshot: Option<Arc<Client>>) -> (r: Result<Arc<Client>, String>)
    ensures
        match snapshot {
            Some(h) => r == Ok::<Arc<Client>, String>(h),
            None => r is Err && early_reply(snapshot) == Some(r->Err_0@),
        },
{
    match snapshot {
        Some(h) => Ok(h),
        None => Err(String::from_str(NOT_LOGGED_IN_MESSAGE)),
    }
}

/// A client with the given credentials, set to log in at the endpoint that
/// `username` calls for.
pub fn prepare_client(client_id: String, client_secret: String, username: &str) -> (r: ConfiguredClient)
    ensures
        r.client_id() == client_id@,
        r.client_secret() == client_secret@,
        r.endpoint() == endpoint_for(username@),
{
    let mut client = ConfiguredClient::new(client_id, client_secret);
    let endpoint = login_endpoint(username);
    client.set_login_endpoint(endpoint);
    client
}

} // verus!
