//! Where a legacy-dialect client connects to.
use vstd::prelude::*;

use crate::client::{address, format_address};
use crate::connection::{Connection, ConnectionState};
use crate::json::text;
use crate::GraphqlWsProtocol;

verus! {

/// Where to open a legacy-dialect connection.
pub struct ApolloGraphqlWsClientBuilder {
    url: String,
}

impl ApolloGraphqlWsClientBuilder {
    pub closed spec fn url_of(&self) -> Seq<char> {
        self.url@
    }

    pub fn from_url(url: &str) -> (r: ApolloGraphqlWsClientBuilder)
        ensures
            r.url_of() == url@,
    {
        ApolloGraphqlWsClientBuilder { url: text(url) }
    }

    /// The address `{ws_proto}://{host}:{port}{path}`.
    pub fn from(ws_proto: &str, host: &str, port: u16, path: &str) -> (r: ApolloGraphqlWsClientBuilder)
        ensures
            r.url_of() == address(ws_proto@, host@, port as nat, path@),
    {
        ApolloGraphqlWsClientBuilder { url: format_address(ws_proto, host, port, path) }
    }

    pub fn url(&self) -> (r: &str)
        ensures
            r@ == self.url_of(),
    {
        self.url.as_str()
    }

    pub fn get_protocol(&self) -> (r: GraphqlWsProtocol)
        ensures
            r == GraphqlWsProtocol::APOLLO,
    {
        GraphqlWsProtocol::APOLLO
    }

    /// The protocol state of a connection to open from here.
    pub fn connection(&self) -> (r: Connection)
        ensures
            r.dialect_of() == GraphqlWsProtocol::APOLLO,
            r.state_of() == ConnectionState::Disconnected,
    {
        Connection::new(GraphqlWsProtocol::APOLLO)
    }
}

} // verus!
