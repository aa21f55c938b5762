//! Batched JSON-RPC state queries against CronCat contracts, with verified
//! request/response correlation and per-tag response dispatch.
//!
//! A batch is built from query descriptors: each descriptor is assigned a
//! correlation id (0, 1, ... in submission order), wrapped into the protobuf
//! smart-contract-state envelope and then into a JSON-RPC request object.
//! Responses come back in arbitrary order; the correlator matches them to the
//! pending-request table by id and re-sorts them ascending, and the dispatcher
//! decodes each payload with the decoder that its tag selects.

pub mod batch;
pub mod contracts;
pub mod envelope;
pub mod utils;

use vstd::prelude::*;
use crate::contracts::agents::{agents_config_wellformed, AgentsQueryMethod};
use crate::contracts::factory::{factory_config_wellformed, FactoryQueryMethod};
use crate::contracts::manager::{manager_config_wellformed, ManagerQueryMethod};
use crate::contracts::tasks::{tasks_config_wellformed, TasksQueryMethod};
use crate::envelope::envelope_decoded;

verus! {

/// Errors of the query pipeline. Decode failures are fatal for the single
/// result they belong to, never for the whole batch.
#[derive(Clone, Copy, Debug, PartialEq, Eq, Structural)]
pub enum QueryError {
    /// The query method has no request encoder registered.
    UnsupportedMethod,
    /// The response bytes were not a well-formed smart-contract-state envelope.
    EnvelopeDecodeError,
    /// The inner bytes did not match the contract's config schema.
    SchemaDecodeError,
}

/// Query methods, per contract: the decoder tag carried by each descriptor.
#[allow(inconsistent_fields)]
#[derive(Clone, Copy, Debug, PartialEq, Eq, Structural)]
pub enum QueryResponseHandler {
    Factory { method: FactoryQueryMethod },
    Manager { method: ManagerQueryMethod },
    Tasks { method: TasksQueryMethod },
    Agents { method: AgentsQueryMethod },
}

/// The decoded response, one variant per query method that has a decoder.
#[derive(Clone, Debug)]
pub enum HandleResponseTypes {
    FactoryQueryConfig(croncat_sdk_factory::msg::Config),
    ManagerQueryConfig(croncat_sdk_manager::types::Config),
    TasksQueryConfig(croncat_sdk_tasks::types::Config),
    AgentsQueryConfig(croncat_sdk_agents::types::Config),
}

/// Whether a config request can be encoded for this tag: only the `Config`
/// method of each contract has a request encoder here.
pub open spec fn supports_config_request(handler: QueryResponseHandler) -> bool {
    match handler {
        QueryResponseHandler::Factory { method } => method is Config,
        QueryResponseHandler::Manager { method } => method is Config,
        QueryResponseHandler::Tasks { method } => method is Config,
        QueryResponseHandler::Agents { method } => method is Config,
    }
}

/// Whether a decoder is registered for this tag. Tags without one are valid
/// to submit; their responses resolve to no result rather than an error.
pub open spec fn has_decoder(handler: QueryResponseHandler) -> bool {
    match handler {
        QueryResponseHandler::Factory { method } => method is Config,
        QueryResponseHandler::Manager { method } => method is Config,
        QueryResponseHandler::Tasks { method } => method is Config,
        QueryResponseHandler::Agents { method } => method is Config,
    }
}

/// Whether the reply bytes inside an envelope match the schema that this
/// tag's decoder expects.
pub open spec fn tag_wellformed(handler: QueryResponseHandler, data: Seq<u8>) -> bool {
    match handler {
        QueryResponseHandler::Factory { .. } => factory_config_wellformed(data),
        QueryResponseHandler::Manager { .. } => manager_config_wellformed(data),
        QueryResponseHandler::Tasks { .. } => tasks_config_wellformed(data),
        QueryResponseHandler::Agents { .. } => agents_config_wellformed(data),
    }
}

/// Whether a decoded result value carries the variant that this tag selects.
pub open spec fn result_matches_tag(handler: QueryResponseHandler, v: HandleResponseTypes) -> bool {
    match handler {
        QueryResponseHandler::Factory { .. } => v is FactoryQueryConfig,
        QueryResponseHandler::Manager { .. } => v is ManagerQueryConfig,
        QueryResponseHandler::Tasks { .. } => v is TasksQueryConfig,
        QueryResponseHandler::Agents { .. } => v is AgentsQueryConfig,
    }
}

/// What dispatching a payload under a tag returns: no result for a tag
/// without a decoder; otherwise an envelope error, a schema error, or the
/// decoded variant that the tag selects. A failure concerns this payload
/// alone and says nothing about any other entry of the batch.
pub open spec fn dispatch_post(
    handler: QueryResponseHandler,
    bytes: Seq<u8>,
    r: Result<Option<HandleResponseTypes>, QueryError>,
) -> bool {
    if !has_decoder(handler) {
        r is Ok && r->Ok_0 is None
    } else {
        match envelope_decoded(bytes) {
            None => r is Err && r->Err_0 == QueryError::EnvelopeDecodeError,
            Some(data) => {
                if tag_wellformed(handler, data) {
                    r is Ok && r->Ok_0 is Some && result_matches_tag(handler, r->Ok_0->Some_0)
                } else {
                    r is Err && r->Err_0 == QueryError::SchemaDecodeError
                }
            },
        }
    }
}

impl QueryResponseHandler {
    /// Route a correlated payload to the decoder that this tag selects.
    /// Pure per entry: the outcome depends on this tag and payload alone.
    pub fn dispatch(&self, value: &Vec<u8>) -> (r: Result<Option<HandleResponseTypes>, QueryError>)
        ensures
            dispatch_post(*self, value@, r),
    {
        match self {
            QueryResponseHandler::Factory { method } => method.handle(value),
            QueryResponseHandler::Manager { method } => method.handle(value),
            QueryResponseHandler::Tasks { method } => method.handle(value),
            QueryResponseHandler::Agents { method } => method.handle(value),
        }
    }
}

} // verus!
