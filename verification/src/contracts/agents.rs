//! Queries against the CronCat agents contract.

use vstd::prelude::*;
use crate::{HandleResponseTypes, QueryError, QueryResponseHandler};
use crate::envelope::{decode_state_response, envelope_decoded, state_query_encoded};
use crate::utils::{
    abci_query_method, config_query_json, create_json_rpc_request, get_request_params,
    json_rpc_version, smart_contract_state_path, RequestValueAndHandler, StateQueryRequest,
};

verus! {

/// Query methods of the agents contract. Only `Config` has a decoder so far;
/// the other methods are placeholders for queries not issued yet.
#[derive(Clone, Copy, Debug, PartialEq, Eq, Structural)]
pub enum AgentsQueryMethod {
    Config,
    GetAgent,
}

#[verifier::external_type_specification]
#[verifier::external_body]
pub struct ExAgentsConfig(croncat_sdk_agents::types::Config);

/// Relies on the derived `Clone` of `croncat_sdk_agents::types::Config`; nothing is claimed of the copy.
pub assume_specification[ <croncat_sdk_agents::types::Config as core::clone::Clone>::clone ](
    c: &croncat_sdk_agents::types::Config,
) -> croncat_sdk_agents::types::Config;

/// Whether the given bytes deserialize as the agents contract's config.
pub uninterp spec fn agents_config_wellformed(data: Seq<u8>) -> bool;

/// Relies on `serde_json::from_slice::<croncat_sdk_agents::types::Config>`:
/// whether the bytes parse, and to what, is a function of the bytes alone.
#[verifier::external_body]
fn parse_agents_config(data: &Vec<u8>) -> (r: Option<croncat_sdk_agents::types::Config>)
    ensures
        r is Some <==> agents_config_wellformed(data@),
{
    serde_json::from_slice(data.as_slice()).ok()
}

/// Relies on serde_json's serialization of `croncat_sdk_agents::msg::QueryMsg::Config {}`,
/// which is the JSON text `{"config":{}}`.
#[verifier::external_body]
fn agents_config_query_bytes() -> (r: Vec<u8>)
    ensures
        r@ == config_query_json(),
{
    serde_json::to_vec(&croncat_sdk_agents::msg::QueryMsg::Config {})
        .expect("serializing a fieldless query variant cannot fail")
}

impl AgentsQueryMethod {
    /// Decode a correlated response payload with this method's decoder.
    /// Methods without a decoder yield no result rather than an error.
    pub fn handle(&self, value: &Vec<u8>) -> (r: Result<Option<HandleResponseTypes>, QueryError>)
        ensures
            !(self is Config) ==> r is Ok && r->Ok_0 is None,
            self is Config ==> match envelope_decoded(value@) {
                None => r is Err && r->Err_0 == QueryError::EnvelopeDecodeError,
                Some(data) => {
                    if agents_config_wellformed(data) {
                        r is Ok && r->Ok_0 is Some && r->Ok_0->Some_0 is AgentsQueryConfig
                    } else {
                        r is Err && r->Err_0 == QueryError::SchemaDecodeError
                    }
                },
            },
    {
        match self {
            AgentsQueryMethod::Config => match handle_agents_config(value) {
                Ok(config) => Ok(Some(HandleResponseTypes::AgentsQueryConfig(config))),
                Err(e) => Err(e),
            },
            _ => Ok(None),
        }
    }
}

/// Decode a response payload as the agents contract's config: unwrap the
/// state-query envelope, then deserialize the reply bytes inside.
pub fn handle_agents_config(response_value: &Vec<u8>) -> (r: Result<
    croncat_sdk_agents::types::Config,
    QueryError,
>)
    ensures
        match envelope_decoded(response_value@) {
            None => r is Err && r->Err_0 == QueryError::EnvelopeDecodeError,
            Some(data) => {
                if agents_config_wellformed(data) {
                    r is Ok
                } else {
                    r is Err && r->Err_0 == QueryError::SchemaDecodeError
                }
            },
        },
{
    match decode_state_response(response_value) {
        None => Err(QueryError::EnvelopeDecodeError),
        Some(data) => match parse_agents_config(&data) {
            None => Err(QueryError::SchemaDecodeError),
            Some(config) => Ok(config),
        },
    }
}

/// Build the JSON-RPC request querying the agents contract's config at the
/// given address, under the given correlation id.
pub fn create_agents_config_request(json_rpc_id: u32, address: &str) -> (r: RequestValueAndHandler)
    ensures
        r.handler == (QueryResponseHandler::Agents { method: AgentsQueryMethod::Config }),
        r.val.id == json_rpc_id,
        r.val.jsonrpc@ == json_rpc_version(),
        r.val.method@ == abci_query_method(),
        r.val.params.path@ == smart_contract_state_path(),
        r.val.params.data@ == state_query_encoded(address@, config_query_json()),
        r.val.params.height is None,
        !r.val.params.prove,
{
    let query_method_plain = agents_config_query_bytes();
    let query_msg = StateQueryRequest {
        address: String::from_str(address),
        query_data: query_method_plain,
    };
    let request_params = get_request_params(query_msg);
    let query_request = create_json_rpc_request(
        json_rpc_id,
        String::from_str("abci_query"),
        request_params,
    );
    let response_handler = QueryResponseHandler::Agents { method: AgentsQueryMethod::Config };
    RequestValueAndHandler { val: query_request, handler: response_handler }
}

} // verus!
