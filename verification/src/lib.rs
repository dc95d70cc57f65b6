//! Client-side core of an identity service SDK: the request a call sends, the
//! meaning of the status that comes back, and the session that holds the tokens.
//!
//! Nothing here touches the network. A network layer sends what [`Transport`]
//! prepares and reports back what happened, and whoever builds a client keeps its
//! one [`SessionManager`] behind a lock that all its users share.

pub mod clock;
pub mod errors;
pub mod session;
pub mod transport;
pub mod types;

pub use crate::errors::IdentityError;
pub use crate::session::SessionManager;
pub use crate::transport::Transport;
pub use crate::types::{
    AuthInput, DeviceInfo, DeviceStatusResponse, EIDStatusResponse, EIDVerifyInput,
    IdentityClientConfig, MachineEnrollmentResponse, MachineTokenResponse, SessionResponse,
    StrengthType, StrengthenInput, TokenResponse, UserProfile, UserRoles,
};

use crate::session::{after_change, owned_text_of, SessionChange, SessionView, TokenWrite};
use crate::transport::{count_named, lemma_token_one_authorization, HeaderView, Method};
use vstd::prelude::*;

verus! {

/// The two parts that every feature of a client works with: one dispatcher and
/// one session. Both are to be shared among the features, the session behind a
/// lock; the session is never copied.
#[derive(Debug)]
pub struct IdentityClient {
    pub transport: Transport,
    pub session_manager: SessionManager,
}

impl IdentityClient {
    /// The client for a configuration: a dispatcher for its base URL and client
    /// identifier, and a session that starts with its access token, if it has one.
    pub fn new(config: IdentityClientConfig) -> (client: Self)
        ensures
            client.transport.base_url() == config.base_url@,
            client.transport.client_id() == config.client_id@,
            client.session_manager@ == SessionView::initial(owned_text_of(config.access_token)),
    {
        let transport = Transport::new(config.base_url, config.client_id);
        let session_manager = SessionManager::new(config.access_token);
        IdentityClient { transport, session_manager }
    }
}

/// The same as [`IdentityClient::new`].
pub fn create_identity_client(config: IdentityClientConfig) -> (client: IdentityClient)
    ensures
        client.transport.base_url() == config.base_url@,
        client.transport.client_id() == config.client_id@,
        client.session_manager@ == SessionView::initial(owned_text_of(config.access_token)),
{
    IdentityClient::new(config)
}

/// A request prepared with the access token that a session holds right after a
/// write carries the token of that write, in its one authorization line.
pub proof fn lemma_request_carries_written_token(
    transport: Transport,
    method: Method,
    endpoint: Seq<char>,
    body: Option<serde_json::Value>,
    before: SessionView,
    write: TokenWrite,
)
    ensures
        ({
            let session = after_change(before, SessionChange::Write(write));
            let headers = transport.plan(method, endpoint, body, session.access_token).headers;
            &&& count_named(headers, "Authorization"@) == 1
            &&& headers.last() == HeaderView {
                name: "Authorization"@,
                value: "Bearer "@ + write.access_token,
            }
        }),
{
    lemma_token_one_authorization(transport, method, endpoint, body, write.access_token);
}

} // verus!
