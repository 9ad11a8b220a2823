use crate::client::api::ApiClient;
use vstd::prelude::*;

verus! {

/// Where the server is and which ingestion key to send.
#[derive(Debug, Clone)]
pub struct ConnectionArgs {
    /// Base URL of the server.
    pub base_url: String,
    /// Ingestion key, sent with every request where it is given.
    pub auth_key: Option<String>,
}

impl ConnectionArgs {
    /// The client for this connection.
    pub fn into_client(self) -> (client: ApiClient)
        ensures
            client.spec_base_url() == crate::client::api::trim_trailing_slashes(self.base_url@),
            client.spec_auth_key() == self.auth_key,
    {
        ApiClient::new(self.base_url, self.auth_key)
    }
}

} // verus!
