//! Request-side plumbing: the ABCI query parameters, the JSON-RPC request
//! object, and the helpers that wrap an encoded state query into both.

use vstd::prelude::*;
use crate::contracts::agents::{create_agents_config_request, AgentsQueryMethod};
use crate::contracts::factory::{create_factory_config_request, FactoryQueryMethod};
use crate::contracts::manager::{create_manager_config_request, ManagerQueryMethod};
use crate::contracts::tasks::{create_tasks_config_request, TasksQueryMethod};
use crate::envelope::{encode_state_query, state_query_encoded};
use crate::{supports_config_request, QueryError, QueryResponseHandler};

verus! {

/// A smart-contract state query before envelope encoding: the contract
/// address it targets and the serialized query message for that contract.
#[derive(Debug)]
pub struct StateQueryRequest {
    pub address: String,
    pub query_data: Vec<u8>,
}

/// The `params` object of one JSON-RPC request: an ABCI query carrying the
/// envelope-encoded state query under the fixed smart-contract-state path.
#[derive(Debug)]
pub struct AbciQueryParams {
    pub path: String,
    pub data: Vec<u8>,
    pub height: Option<u64>,
    pub prove: bool,
}

/// One JSON-RPC request object, of shape `{jsonrpc, id, method, params}`.
/// The `id` is the correlation id that ties the eventual response back to
/// the query that produced it.
#[derive(Debug)]
pub struct JsonRpcRequest {
    pub jsonrpc: String,
    pub id: u32,
    pub method: String,
    pub params: AbciQueryParams,
}

/// One pending batch entry: the JSON-RPC request to send and the handler
/// that decodes its eventual response.
#[derive(Debug)]
pub struct RequestValueAndHandler {
    pub val: JsonRpcRequest,
    pub handler: crate::QueryResponseHandler,
}

/// The ABCI path for querying a smart contract's state.
pub open spec fn smart_contract_state_path() -> Seq<char> {
    "/cosmwasm.wasm.v1.Query/SmartContractState"@
}

/// The JSON-RPC method under which ABCI queries are issued.
pub open spec fn abci_query_method() -> Seq<char> {
    "abci_query"@
}

/// The JSON-RPC protocol version sent with every request.
pub open spec fn json_rpc_version() -> Seq<char> {
    "2.0"@
}

/// The serialized `Config {}` query message, shared by every contract here:
/// the JSON text `{"config":{}}` as bytes.
pub open spec fn config_query_json() -> Seq<u8> {
    seq![
        123u8, 34u8, 99u8, 111u8, 110u8, 102u8, 105u8, 103u8, 34u8, 58u8, 123u8, 125u8, 125u8,
    ]
}

/// Builds the JSON-RPC `params` for a state query: encodes the query into the
/// outer envelope and places it under the smart-contract-state path, at the
/// latest height and without a proof.
pub fn get_request_params(query_msg: StateQueryRequest) -> (r: AbciQueryParams)
    ensures
        r.path@ == smart_contract_state_path(),
        r.data@ == state_query_encoded(query_msg.address@, query_msg.query_data@),
        r.height is None,
        !r.prove,
{
    let data = encode_state_query(query_msg.address.as_str(), &query_msg.query_data);
    AbciQueryParams {
        path: String::from_str("/cosmwasm.wasm.v1.Query/SmartContractState"),
        data,
        height: None,
        prove: false,
    }
}

/// Holds of a config-request entry built for the given id, tag and contract
/// address: the entry queries that address for its config under that id.
pub open spec fn config_request_post(
    e: RequestValueAndHandler,
    json_rpc_id: u32,
    handler: QueryResponseHandler,
    address: Seq<char>,
) -> bool {
    &&& e.handler == handler
    &&& e.val.id == json_rpc_id
    &&& e.val.jsonrpc@ == json_rpc_version()
    &&& e.val.method@ == abci_query_method()
    &&& e.val.params.path@ == smart_contract_state_path()
    &&& e.val.params.data@ == state_query_encoded(address, config_query_json())
    &&& e.val.params.height is None
    &&& !e.val.params.prove
}

/// Build the JSON-RPC request querying the given contract's config at the
/// given address, under the given correlation id. Methods other than each
/// contract's `Config` have no request encoder yet and are rejected.
pub fn create_config_request(
    json_rpc_id: u32,
    handler: &QueryResponseHandler,
    address: &str,
) -> (r: Result<RequestValueAndHandler, QueryError>)
    ensures
        r is Ok <==> supports_config_request(*handler),
        r is Err ==> r->Err_0 == QueryError::UnsupportedMethod,
        r is Ok ==> config_request_post(r->Ok_0, json_rpc_id, *handler, address@),
{
    match handler {
        QueryResponseHandler::Factory { method } => match method {
            FactoryQueryMethod::Config => Ok(create_factory_config_request(json_rpc_id, address)),
            _ => Err(QueryError::UnsupportedMethod),
        },
        QueryResponseHandler::Manager { method } => match method {
            ManagerQueryMethod::Config => Ok(create_manager_config_request(json_rpc_id, address)),
            _ => Err(QueryError::UnsupportedMethod),
        },
        QueryResponseHandler::Tasks { method } => match method {
            TasksQueryMethod::Config => Ok(create_tasks_config_request(json_rpc_id, address)),
            _ => Err(QueryError::UnsupportedMethod),
        },
        QueryResponseHandler::Agents { method } => match method {
            AgentsQueryMethod::Config => Ok(create_agents_config_request(json_rpc_id, address)),
            _ => Err(QueryError::UnsupportedMethod),
        },
    }
}

/// Returns a JSON-RPC request object given the id, the method and the
/// parameters.
pub fn create_json_rpc_request(id: u32, method: String, params: AbciQueryParams) -> (r: JsonRpcRequest)
    ensures
        r.jsonrpc@ == json_rpc_version(),
        r.id == id,
        r.method@ == method@,
        r.params == params,
{
    JsonRpcRequest { jsonrpc: String::from_str("2.0"), id, method, params }
}

} // verus!
