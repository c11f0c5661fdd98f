//! The legacy dialect's names for the shared event vocabulary.
use vstd::prelude::*;

use crate::event::{
    client_doc, client_in_dialect, encode_client_message, ClientError, GraphqlWsClientEvent,
    GraphqlWsComplete, GraphqlWsData, GraphqlWsDataPayload, GraphqlWsError, GraphqlWsErrorPayload,
    GraphqlWsServerEvent, GraphqlWsStart, GraphqlWsStartPayload, GraphqlWsStop,
};
use crate::json::{rendered_json, Json};
use crate::GraphqlWsProtocol;

verus! {

pub type ApolloGraphqlWsStart = GraphqlWsStart;

pub type ApolloGraphqlWsStartPayload = GraphqlWsStartPayload;

pub type ApolloGraphqlWsStop = GraphqlWsStop;

pub type ApolloGraphqlWsData = GraphqlWsData;

pub type ApolloGraphqlWsDataPayload = GraphqlWsDataPayload;

pub type ApolloGraphqlWsError = GraphqlWsError;

pub type ApolloGraphqlWsErrorPayload = GraphqlWsErrorPayload;

pub type ApolloGraphqlWsComplete = GraphqlWsComplete;

pub type ApolloGraphqlWsClientEvent = GraphqlWsClientEvent;

pub type ApolloGraphqlWsServerEvent = GraphqlWsServerEvent;

/// The bytes of a client event in the legacy dialect.
pub fn build_client_message(client_event: GraphqlWsClientEvent) -> (r: Result<Vec<u8>, ClientError>)
    ensures
        client_in_dialect(GraphqlWsProtocol::APOLLO, client_event) ==> r is Ok,
        r matches Ok(b) ==> exists|j: Json| #[trigger] client_doc(GraphqlWsProtocol::APOLLO, client_event, j) && b@ == rendered_json(j),
        !client_in_dialect(GraphqlWsProtocol::APOLLO, client_event) ==> r == Err::<
            Vec<u8>,
            ClientError,
        >(ClientError::Encode),
{
    encode_client_message(GraphqlWsProtocol::APOLLO, client_event)
}

} // verus!
