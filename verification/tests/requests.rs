use cosmrs::proto::cosmwasm::wasm::v1::{
    QuerySmartContractStateRequest, QuerySmartContractStateResponse,
};
use cosmrs::proto::prost::Message;
use croncat_batch::contracts::agents::{create_agents_config_request, AgentsQueryMethod};
use croncat_batch::contracts::factory::{create_factory_config_request, FactoryQueryMethod};
use croncat_batch::contracts::manager::{create_manager_config_request, ManagerQueryMethod};
use croncat_batch::contracts::tasks::{create_tasks_config_request, TasksQueryMethod};
use croncat_batch::envelope::{
    decode_state_response_envelope, encode_state_response_envelope, state_response_round_trip,
};
use croncat_batch::utils::create_config_request;
use croncat_batch::{QueryError, QueryResponseHandler};

const CONFIG_QUERY_JSON: &[u8] = br#"{"config":{}}"#;

fn expected_query_data(address: &str) -> Vec<u8> {
    QuerySmartContractStateRequest {
        address: address.to_string(),
        query_data: CONFIG_QUERY_JSON.to_vec(),
    }
    .encode_to_vec()
}

#[test]
fn agents_config_request_fields() {
    let r = create_agents_config_request(7, "agents-addr");
    assert_eq!(
        r.handler,
        QueryResponseHandler::Agents { method: AgentsQueryMethod::Config }
    );
    assert_eq!(r.val.id, 7);
    assert_eq!(r.val.jsonrpc, "2.0");
    assert_eq!(r.val.method, "abci_query");
    assert_eq!(r.val.params.path, "/cosmwasm.wasm.v1.Query/SmartContractState");
    assert_eq!(r.val.params.data, expected_query_data("agents-addr"));
    assert_eq!(r.val.params.height, None);
    assert!(!r.val.params.prove);
}

#[test]
fn factory_config_request_fields() {
    let r = create_factory_config_request(0, "factory-addr");
    assert_eq!(
        r.handler,
        QueryResponseHandler::Factory { method: FactoryQueryMethod::Config }
    );
    assert_eq!(r.val.id, 0);
    assert_eq!(r.val.params.data, expected_query_data("factory-addr"));
}

#[test]
fn manager_config_request_fields() {
    let r = create_manager_config_request(1, "manager-addr");
    assert_eq!(
        r.handler,
        QueryResponseHandler::Manager { method: ManagerQueryMethod::Config }
    );
    assert_eq!(r.val.id, 1);
    assert_eq!(r.val.params.data, expected_query_data("manager-addr"));
}

#[test]
fn tasks_config_request_fields() {
    let r = create_tasks_config_request(2, "tasks-addr");
    assert_eq!(
        r.handler,
        QueryResponseHandler::Tasks { method: TasksQueryMethod::Config }
    );
    assert_eq!(r.val.id, 2);
    assert_eq!(r.val.params.data, expected_query_data("tasks-addr"));
}

#[test]
fn config_request_dispatches_by_tag() {
    let handler = QueryResponseHandler::Manager { method: ManagerQueryMethod::Config };
    let r = create_config_request(3, &handler, "manager-addr").unwrap();
    assert_eq!(r.handler, handler);
    assert_eq!(r.val.id, 3);
    assert_eq!(r.val.params.data, expected_query_data("manager-addr"));
}

#[test]
fn config_request_rejects_unsupported_methods() {
    let cases = vec![
        QueryResponseHandler::Factory { method: FactoryQueryMethod::LatestContracts },
        QueryResponseHandler::Manager { method: ManagerQueryMethod::TreasuryBalance },
        QueryResponseHandler::Tasks { method: TasksQueryMethod::TasksTotal },
        QueryResponseHandler::Agents { method: AgentsQueryMethod::GetAgent },
    ];
    for handler in cases {
        let r = create_config_request(0, &handler, "addr");
        assert_eq!(r.unwrap_err(), QueryError::UnsupportedMethod);
    }
}

#[test]
fn response_envelope_matches_proto_encoding() {
    let data = b"hello".to_vec();
    let expected = QuerySmartContractStateResponse { data: data.clone() }.encode_to_vec();
    assert_eq!(encode_state_response_envelope(&data), expected);
}

#[test]
fn response_envelope_round_trip() {
    for len in 0..48usize {
        let data: Vec<u8> = (0..len).map(|i| (i * 7 + 3) as u8).collect();
        assert_eq!(state_response_round_trip(&data), data);
    }
}

#[test]
fn response_envelope_decode_inverts_encode() {
    let data = b"arbitrary payload bytes".to_vec();
    let encoded = encode_state_response_envelope(&data);
    assert_eq!(decode_state_response_envelope(&encoded), Some(data));
}

#[test]
fn malformed_envelope_decodes_to_none() {
    // field 1, length-delimited, but the length byte promises more than follows
    let truncated = vec![0x0au8, 0x05, 0x01];
    assert_eq!(decode_state_response_envelope(&truncated), None);
}
