//! The data of a connection that is about to be opened.

use crate::client::configuration::{Authentication, ConnectionConfiguration};
use crate::protocol::negotiate::NegotiateResponseV0;
use vstd::prelude::*;
use vstd::string::*;

verus! {

/// Where to connect, and under which connection id.
#[derive(Debug, Clone, PartialEq)]
pub struct ConnectionData {
    endpoint: String,
    connection_id: String,
}

/// The mathematical value of a [`ConnectionData`].
pub struct ConnectionDataView {
    pub endpoint: Seq<char>,
    pub connection_id: Seq<char>,
}

impl View for ConnectionData {
    type V = ConnectionDataView;

    closed spec fn view(&self) -> ConnectionDataView {
        ConnectionDataView { endpoint: self.endpoint@, connection_id: self.connection_id@ }
    }
}

impl ConnectionData {
    /// The URL of the socket.
    pub fn get_endpoint(&self) -> (endpoint: String)
        ensures
            endpoint@ == self@.endpoint,
    {
        self.endpoint.clone()
    }

    /// The connection id; empty for a connection that was not negotiated.
    pub fn get_connection_id(&self) -> (connection_id: String)
        ensures
            connection_id@ == self@.connection_id,
    {
        self.connection_id.clone()
    }
}

/// Whether the `http` crate accepts the text as a URI.
pub uninterp spec fn uri_accepted(endpoint: Seq<char>) -> bool;

/// Whether the endpoint can be used as the URI of a socket.
///
/// Trusted: parsing a text as an `http::Uri` succeeds or fails by the text
/// alone.
#[verifier::external_body]
pub(crate) fn endpoint_is_uri(endpoint: &str) -> (accepted: bool)
    ensures
        accepted == uri_accepted(endpoint@),
{
    endpoint.parse::<http::Uri>().is_ok()
}

/// The HTTP side of opening a connection. The client connects to the socket
/// URL directly, so no HTTP call is made.
pub struct HttpClient {}

impl HttpClient {
    /// The connection data for the given settings: the socket URL, and no
    /// connection id.
    pub fn negotiate(options: ConnectionConfiguration) -> (r: Result<ConnectionData, String>)
        ensures
            r matches Ok(data) && data@ == (ConnectionDataView {
                endpoint: options@.socket_url(),
                connection_id: Seq::empty(),
            }),
    {
        Ok(ConnectionData { endpoint: options.get_socket_url(), connection_id: String::new() })
    }

    /// The connection data for `endpoint`, whatever the negotiate reply says.
    pub fn create_configuration(endpoint: String, negotiate: NegotiateResponseV0) -> (r: Option<
        ConnectionData,
    >)
        ensures
            r matches Some(data) && data@ == (ConnectionDataView {
                endpoint: endpoint@,
                connection_id: Seq::empty(),
            }),
    {
        Some(ConnectionData { endpoint, connection_id: String::new() })
    }

    /// An HTTP POST is never needed, and is refused.
    pub fn post(endpoint: String, authentication: Authentication) -> (r: Result<
        serde_json::Value,
        String,
    >)
        ensures
            r matches Err(message) && message@ == "Direct WebSocket connection, POST not needed"@,
    {
        Err(String::from_str("Direct WebSocket connection, POST not needed"))
    }
}

} // verus!
