//! A client for GraphQL subscriptions over WebSocket, in both wire dialects:
//! the legacy `graphql-ws` one and the newer `graphql-transport-ws` one.
use vstd::prelude::*;

pub mod json;
pub mod event;
pub mod apollo_event;
pub mod connection;
pub mod client;
pub mod apollo_client;

verus! {

/// The wire dialect a connection speaks, fixed when it is opened.
#[allow(non_camel_case_types)]
#[derive(Clone, Copy, Debug, PartialEq, Eq, Structural)]
pub enum GraphqlWsProtocol {
    /// The legacy dialect, `graphql-ws`.
    APOLLO,
    /// The transport dialect, `graphql-transport-ws`.
    OFFICIAL,
}

/// The subprotocol token that selects the dialect at upgrade time.
pub open spec fn subprotocol_token(p: GraphqlWsProtocol) -> Seq<char> {
    match p {
        GraphqlWsProtocol::APOLLO => "graphql-ws"@,
        GraphqlWsProtocol::OFFICIAL => "graphql-transport-ws"@,
    }
}

impl GraphqlWsProtocol {
    /// The value of the `Sec-WebSocket-Protocol` header for this dialect.
    pub fn get_ws_sec_protocol(&self) -> (r: &'static str)
        ensures
            r@ == subprotocol_token(*self),
    {
        match self {
            GraphqlWsProtocol::APOLLO => "graphql-ws",
            GraphqlWsProtocol::OFFICIAL => "graphql-transport-ws",
        }
    }
}

pub type ApolloClientBuilder = apollo_client::ApolloGraphqlWsClientBuilder;

pub type ApolloServerEvent = apollo_event::ApolloGraphqlWsServerEvent;

pub type ApolloClientEvent = apollo_event::ApolloGraphqlWsClientEvent;

pub type ApolloData = apollo_event::ApolloGraphqlWsData;

pub type ApolloStart = apollo_event::ApolloGraphqlWsStart;

pub type ApolloError = apollo_event::ApolloGraphqlWsError;

pub type ApolloComplete = apollo_event::ApolloGraphqlWsComplete;

pub type ApolloStop = apollo_event::ApolloGraphqlWsStop;

pub type ClientBuilder = client::GraphqlWsClientBuilder;

pub type ServerEvent = event::GraphqlWsServerEvent;

pub type ClientEvent = event::GraphqlWsClientEvent;

pub type Next = event::GraphqlWsNext;

pub type Subscribe = event::GraphqlWsSubscribe;

pub type Error = event::GraphqlWsError;

pub type Complete = event::GraphqlWsComplete;

} // verus!
