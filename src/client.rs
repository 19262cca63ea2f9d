//! A Salesforce client together with what it was configured with.
use vstd::prelude::*;

verus! {

/// The endpoint that a new client logs in at until another is set.
pub const DEFAULT_LOGIN_ENDPOINT: &'static str = "https://login.salesforce.com";

/// A client that has not logged in yet, with the credentials it was made with
/// and the endpoint it will log in at.
pub struct ConfiguredClient {
    client: rustforce::Client,
    client_id: Ghost<Seq<char>>,
    client_secret: Ghost<Seq<char>>,
    endpoint: Ghost<Seq<char>>,
}

impl ConfiguredClient {
    /// The client ID the client presents at login.
    pub closed spec fn client_id(&self) -> Seq<char> {
        self.client_id@
    }

    /// The client secret the client presents at login.
    pub closed spec fn client_secret(&self) -> Seq<char> {
        self.client_secret@
    }

    /// The endpoint the client logs in at.
    pub closed spec fn endpoint(&self) -> Seq<char> {
        self.endpoint@
    }

    /// Relies on rustforce::Client::new: the client keeps both credentials and
    /// logs in at the default endpoint.
    #[verifier::external_body]
    pub fn new(client_id: String, client_secret: String) -> (r: Self)
        ensures
            r.client_id() == client_id@,
            r.client_secret() == client_secret@,
            r.endpoint() == DEFAULT_LOGIN_ENDPOINT@,
    {
        ConfiguredClient {
            client_id: Ghost(client_id@),
            client_secret: Ghost(client_secret@),
            endpoint: Ghost(DEFAULT_LOGIN_ENDPOINT@),
            client: rustforce::Client::new(Some(client_id), Some(client_secret)),
        }
    }

    /// Relies on rustforce::Client::set_login_endpoint: the client logs in at
    /// `endpoint` and keeps its credentials.
    #[verifier::external_body]
    pub fn set_login_endpoint(&mut self, endpoint: &str)
        ensures
            final(self).endpoint() == endpoint@,
            final(self).client_id() == old(self).client_id(),
            final(self).client_secret() == old(self).client_secret(),
    {
        self.client.set_login_endpoint(endpoint);
    }

    /// The client itself, to log in with.
    pub fn into_client(self) -> rustforce::Client {
        self.client
    }
}

} // verus!
