use croncat_batch::batch::{
    build, build_config_requests, correlate, dispatch_all, PendingRequestTable, QueryDescriptor,
    RawResponse,
};
use croncat_batch::contracts::agents::AgentsQueryMethod;
use croncat_batch::contracts::factory::FactoryQueryMethod;
use croncat_batch::contracts::manager::ManagerQueryMethod;
use croncat_batch::contracts::tasks::TasksQueryMethod;
use croncat_batch::envelope::encode_state_response_envelope;
use croncat_batch::{HandleResponseTypes, QueryError, QueryResponseHandler};

fn manager_tag() -> QueryResponseHandler {
    QueryResponseHandler::Manager { method: ManagerQueryMethod::Config }
}

fn tasks_tag() -> QueryResponseHandler {
    QueryResponseHandler::Tasks { method: TasksQueryMethod::Config }
}

fn agents_tag() -> QueryResponseHandler {
    QueryResponseHandler::Agents { method: AgentsQueryMethod::Config }
}

fn manager_config_json() -> Vec<u8> {
    br#"{"owner_addr":"o","pause_admin":"p","croncat_factory_addr":"f","croncat_tasks_key":["tasks",[0,1]],"croncat_agents_key":["agents",[0,1]],"agent_fee":5,"treasury_fee":5,"gas_price":{"numerator":1,"denominator":10,"gas_adjustment_numerator":15},"treasury_addr":null,"cw20_whitelist":[],"native_denom":"ujunox","limit":100}"#.to_vec()
}

fn tasks_config_json() -> Vec<u8> {
    br#"{"owner_addr":"o","pause_admin":"p","croncat_factory_addr":"f","chain_name":"juno","version":"1.0","croncat_manager_key":["manager",[0,1]],"croncat_agents_key":["agents",[0,1]],"slot_granularity_time":10,"gas_base_fee":1,"gas_action_fee":1,"gas_query_fee":1,"gas_limit":100}"#.to_vec()
}

fn agents_config_json() -> Vec<u8> {
    br#"{"croncat_factory_addr":"f","croncat_manager_key":["manager",[0,1]],"croncat_tasks_key":["tasks",[0,1]],"owner_addr":"o","pause_admin":"p","min_tasks_per_agent":3,"agent_nomination_block_duration":10,"min_coins_for_agent_registration":1,"agents_eject_threshold":600,"min_active_agent_count":1,"public_registration":true}"#.to_vec()
}

fn factory_config_json() -> Vec<u8> {
    br#"{"owner_addr":"o","nominated_owner_addr":null}"#.to_vec()
}

fn three_config_table() -> PendingRequestTable {
    let requests = vec![
        (manager_tag(), "addr-a".to_string()),
        (tasks_tag(), "addr-b".to_string()),
        (agents_tag(), "addr-c".to_string()),
    ];
    build_config_requests(&requests).unwrap()
}

fn descriptor(target: &str, handler: QueryResponseHandler) -> QueryDescriptor {
    QueryDescriptor {
        target: target.to_string(),
        payload: br#"{"config":{}}"#.to_vec(),
        handler,
    }
}

#[test]
fn build_assigns_distinct_ascending_ids() {
    let descriptors = vec![
        descriptor("a", manager_tag()),
        descriptor("b", tasks_tag()),
        descriptor("c", agents_tag()),
    ];
    let table = build(&descriptors);
    assert_eq!(table.entries.len(), 3);
    for (i, entry) in table.entries.iter().enumerate() {
        assert_eq!(entry.val.id, i as u32);
    }
    assert_eq!(table.entries[0].handler, manager_tag());
    assert_eq!(table.entries[1].handler, tasks_tag());
    assert_eq!(table.entries[2].handler, agents_tag());
}

#[test]
fn correlate_is_order_invariant() {
    let table = three_config_table();
    let arrival_one = vec![
        RawResponse { id: 2, value: b"third".to_vec() },
        RawResponse { id: 0, value: b"first".to_vec() },
        RawResponse { id: 1, value: b"second".to_vec() },
    ];
    let arrival_two = vec![
        RawResponse { id: 1, value: b"second".to_vec() },
        RawResponse { id: 2, value: b"third".to_vec() },
        RawResponse { id: 0, value: b"first".to_vec() },
    ];
    let out_one = correlate(&table, &arrival_one);
    let out_two = correlate(&table, &arrival_two);
    assert_eq!(out_one.len(), 3);
    assert_eq!(out_one.len(), out_two.len());
    for (a, b) in out_one.iter().zip(out_two.iter()) {
        assert_eq!(a.id, b.id);
        assert_eq!(a.handler, b.handler);
        assert_eq!(a.value, b.value);
    }
    let ids: Vec<u32> = out_one.iter().map(|c| c.id).collect();
    assert_eq!(ids, vec![0, 1, 2]);
}

#[test]
fn correlate_drops_unmatched_ids() {
    let table = three_config_table();
    let responses = vec![
        RawResponse { id: 9, value: b"stray".to_vec() },
        RawResponse { id: 1, value: b"kept".to_vec() },
    ];
    let out = correlate(&table, &responses);
    assert_eq!(out.len(), 1);
    assert_eq!(out[0].id, 1);
    assert_eq!(out[0].value, b"kept".to_vec());
}

#[test]
fn correlate_empty_responses_yields_empty_output() {
    let table = three_config_table();
    let out = correlate(&table, &vec![]);
    assert!(out.is_empty());
}

#[test]
fn missing_response_leaves_id_pending_but_absent() {
    let table = three_config_table();
    let responses = vec![
        RawResponse { id: 0, value: encode_state_response_envelope(&manager_config_json()) },
        RawResponse { id: 2, value: encode_state_response_envelope(&agents_config_json()) },
    ];
    let out = correlate(&table, &responses);
    assert_eq!(out.len(), 2);
    assert_eq!(out[0].id, 0);
    assert_eq!(out[1].id, 2);
    // id 1 got no response: absent from the output, still pending in the table
    assert!(out.iter().all(|c| c.id != 1));
    assert_eq!(table.entries.len(), 3);
    assert_eq!(table.entries[1].val.id, 1);
}

#[test]
fn end_to_end_out_of_order_batch() {
    let table = three_config_table();
    let responses = vec![
        RawResponse { id: 2, value: encode_state_response_envelope(&agents_config_json()) },
        RawResponse { id: 0, value: encode_state_response_envelope(&manager_config_json()) },
        RawResponse { id: 1, value: encode_state_response_envelope(&tasks_config_json()) },
    ];
    let correlated = correlate(&table, &responses);
    let results = dispatch_all(&correlated);
    assert_eq!(results.len(), 3);
    assert!(matches!(
        results[0],
        Ok(Some(HandleResponseTypes::ManagerQueryConfig(_)))
    ));
    assert!(matches!(
        results[1],
        Ok(Some(HandleResponseTypes::TasksQueryConfig(_)))
    ));
    assert!(matches!(
        results[2],
        Ok(Some(HandleResponseTypes::AgentsQueryConfig(_)))
    ));
}

#[test]
fn one_bad_payload_fails_only_its_own_slot() {
    let table = three_config_table();
    // id 0's inner bytes are not a manager config; id 1's payload is fine
    let responses = vec![
        RawResponse { id: 0, value: encode_state_response_envelope(&b"not json".to_vec()) },
        RawResponse { id: 1, value: encode_state_response_envelope(&tasks_config_json()) },
    ];
    let correlated = correlate(&table, &responses);
    let results = dispatch_all(&correlated);
    assert_eq!(results.len(), 2);
    assert!(matches!(results[0], Err(QueryError::SchemaDecodeError)));
    assert!(matches!(
        results[1],
        Ok(Some(HandleResponseTypes::TasksQueryConfig(_)))
    ));
}

#[test]
fn malformed_envelope_fails_only_its_own_slot() {
    let table = three_config_table();
    let responses = vec![
        RawResponse { id: 0, value: vec![0x0a, 0x05, 0x01] },
        RawResponse { id: 2, value: encode_state_response_envelope(&agents_config_json()) },
    ];
    let correlated = correlate(&table, &responses);
    let results = dispatch_all(&correlated);
    assert_eq!(results.len(), 2);
    assert!(matches!(results[0], Err(QueryError::EnvelopeDecodeError)));
    assert!(matches!(
        results[1],
        Ok(Some(HandleResponseTypes::AgentsQueryConfig(_)))
    ));
}

#[test]
fn tag_without_decoder_yields_no_result() {
    let tags = vec![
        QueryResponseHandler::Factory { method: FactoryQueryMethod::LatestContracts },
        QueryResponseHandler::Manager { method: ManagerQueryMethod::TreasuryBalance },
        QueryResponseHandler::Tasks { method: TasksQueryMethod::TasksTotal },
        QueryResponseHandler::Agents { method: AgentsQueryMethod::GetAgent },
    ];
    let payload = encode_state_response_envelope(&b"anything".to_vec());
    for tag in tags {
        let r = tag.dispatch(&payload);
        assert!(matches!(r, Ok(None)));
    }
}

#[test]
fn factory_config_dispatch_succeeds() {
    let tag = QueryResponseHandler::Factory { method: FactoryQueryMethod::Config };
    let payload = encode_state_response_envelope(&factory_config_json());
    let r = tag.dispatch(&payload);
    assert!(matches!(r, Ok(Some(HandleResponseTypes::FactoryQueryConfig(_)))));
}

#[test]
fn build_config_requests_rejects_unsupported_batch() {
    let requests = vec![
        (manager_tag(), "addr-a".to_string()),
        (
            QueryResponseHandler::Agents { method: AgentsQueryMethod::GetAgent },
            "addr-b".to_string(),
        ),
    ];
    let r = build_config_requests(&requests);
    assert_eq!(r.unwrap_err(), QueryError::UnsupportedMethod);
}
