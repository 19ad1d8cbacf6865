use grid_daemon::models::{
    AssociatedAgent, GridPropertyDefinition, Property, Proposal, Record, ReportedValue,
    ReportedValueReporterToAgentMetadata, Reporter,
};
use grid_daemon::track_and_trace::{
    fetch_property_with_data_type, fetch_record, fetch_reported_value_reporter_to_agent_metadata,
    insert_associated_agents, insert_properties, insert_proposals, insert_records,
    insert_reported_values, insert_reporters, list_associated_agents, list_properties_with_data_type,
    list_proposals, list_records, list_reported_value_reporter_to_agent_metadata, list_reporters,
    update_associated_agent_end_commit_num, update_property_end_commit_num,
    update_proposal_end_commit_num, update_record_end_commit_num,
    update_reported_value_end_commit_num, update_reporter_end_commit_num, TrackAndTraceStore,
    end_associated_agent_request, end_property_request, end_proposal_request, end_record_request,
    end_reported_value_request, end_reporter_request,
};
use grid_daemon::table::{ending_scope, listing_scope, EndingScope, ListingScope};
use grid_daemon::MAX_COMMIT_NUM;

fn svc(s: Option<&str>) -> Option<String> {
    s.map(|x| x.to_string())
}

fn agent(record: &str, role: &str, agent_id: &str, start: i64, service: Option<&str>) -> AssociatedAgent {
    AssociatedAgent {
        record_id: record.to_string(),
        role: role.to_string(),
        agent_id: agent_id.to_string(),
        timestamp: start * 10,
        start_commit_num: start,
        end_commit_num: MAX_COMMIT_NUM,
        service_id: svc(service),
    }
}

fn record(record_id: &str, schema: &str, start: i64, service: Option<&str>) -> Record {
    Record {
        record_id: record_id.to_string(),
        schema: schema.to_string(),
        finalized: false,
        owners: vec!["owner".to_string()],
        custodians: vec!["custodian".to_string()],
        start_commit_num: start,
        end_commit_num: MAX_COMMIT_NUM,
        service_id: svc(service),
    }
}

fn property(name: &str, record_id: &str, start: i64, service: Option<&str>) -> Property {
    Property {
        name: name.to_string(),
        record_id: record_id.to_string(),
        property_definition: name.to_string(),
        current_page: 1,
        wrapped: false,
        start_commit_num: start,
        end_commit_num: MAX_COMMIT_NUM,
        service_id: svc(service),
    }
}

fn definition(name: &str, schema: &str, data_type: &str) -> GridPropertyDefinition {
    GridPropertyDefinition {
        name: name.to_string(),
        schema_name: schema.to_string(),
        data_type: data_type.to_string(),
        required: false,
        description: String::new(),
        number_exponent: 0,
        enum_options: vec![],
        parent_name: None,
        start_commit_num: 1,
        end_commit_num: MAX_COMMIT_NUM,
        service_id: None,
    }
}

fn proposal(record_id: &str, receiving: &str, role: &str, start: i64, service: Option<&str>) -> Proposal {
    Proposal {
        record_id: record_id.to_string(),
        timestamp: start,
        issuing_agent: "issuer".to_string(),
        receiving_agent: receiving.to_string(),
        role: role.to_string(),
        properties: vec!["weight".to_string()],
        status: "OPEN".to_string(),
        terms: "terms".to_string(),
        start_commit_num: start,
        end_commit_num: MAX_COMMIT_NUM,
        service_id: svc(service),
    }
}

fn reported_value(record_id: &str, name: &str, start: i64, number: i64) -> ReportedValue {
    ReportedValue {
        property_name: name.to_string(),
        record_id: record_id.to_string(),
        reporter_index: 0,
        timestamp: start,
        data_type: "NUMBER".to_string(),
        boolean_value: None,
        number_value: Some(number),
        string_value: None,
        enum_value: None,
        struct_values: None,
        lat_long_value: None,
        start_commit_num: start,
        end_commit_num: MAX_COMMIT_NUM,
        service_id: None,
    }
}

fn reporter(record_id: &str, name: &str, key: &str, start: i64, service: Option<&str>) -> Reporter {
    Reporter {
        property_name: name.to_string(),
        record_id: record_id.to_string(),
        public_key: key.to_string(),
        authorized: true,
        reporter_index: 0,
        start_commit_num: start,
        end_commit_num: MAX_COMMIT_NUM,
        service_id: svc(service),
    }
}

fn metadata_row(record_id: &str, name: &str, end: i64, number: i64) -> ReportedValueReporterToAgentMetadata {
    ReportedValueReporterToAgentMetadata {
        property_name: name.to_string(),
        record_id: record_id.to_string(),
        reporter_index: 0,
        timestamp: 1,
        data_type: "NUMBER".to_string(),
        boolean_value: None,
        number_value: Some(number),
        string_value: None,
        enum_value: None,
        struct_values: None,
        lat_long_value: None,
        public_key: Some("key".to_string()),
        authorized: Some(true),
        metadata: Some("{}".to_string()),
        reported_value_end_commit_num: end,
        reporter_end_commit_num: Some(MAX_COMMIT_NUM),
        service_id: None,
    }
}

fn ids(v: &[&str]) -> Vec<String> {
    v.iter().map(|s| s.to_string()).collect()
}

#[test]
fn new_store_is_empty() {
    let store = TrackAndTraceStore::new();
    assert!(store.associated_agents.is_empty());
    assert!(store.records.is_empty());
    assert!(fetch_record(&store, "r1").is_none());
}

#[test]
fn writing_an_agent_closes_its_current_version() {
    let mut store = TrackAndTraceStore::new();
    insert_associated_agents(&mut store, &[agent("r1", "owner", "a1", 1, Some("s1"))]);
    insert_associated_agents(&mut store, &[agent("r1", "owner", "a1", 5, Some("s1"))]);
    assert_eq!(store.associated_agents.len(), 2);
    assert_eq!(store.associated_agents[0].end_commit_num, 5);
    assert_eq!(store.associated_agents[1].end_commit_num, MAX_COMMIT_NUM);
    let listed = list_associated_agents(&store, &ids(&["r1"]), Some("s1"));
    assert_eq!(listed, vec![agent("r1", "owner", "a1", 5, Some("s1"))]);
}

#[test]
fn writing_an_agent_of_one_service_keeps_other_services() {
    let mut store = TrackAndTraceStore::new();
    insert_associated_agents(
        &mut store,
        &[agent("r1", "owner", "a1", 1, Some("s1")), agent("r1", "owner", "a1", 1, Some("s2"))],
    );
    insert_associated_agents(&mut store, &[agent("r1", "owner", "a1", 3, Some("s1"))]);
    assert_eq!(store.associated_agents[0].end_commit_num, 3);
    assert_eq!(store.associated_agents[1].end_commit_num, MAX_COMMIT_NUM);
}

#[test]
fn writing_without_service_closes_every_service() {
    let mut store = TrackAndTraceStore::new();
    insert_associated_agents(
        &mut store,
        &[agent("r1", "owner", "a1", 1, Some("s1")), agent("r1", "owner", "a1", 1, None)],
    );
    insert_associated_agents(&mut store, &[agent("r1", "owner", "a1", 4, None)]);
    assert_eq!(store.associated_agents[0].end_commit_num, 4);
    assert_eq!(store.associated_agents[1].end_commit_num, 4);
    assert_eq!(store.associated_agents[2].end_commit_num, MAX_COMMIT_NUM);
}

#[test]
fn a_batch_does_not_close_its_own_rows() {
    let mut store = TrackAndTraceStore::new();
    insert_associated_agents(
        &mut store,
        &[agent("r1", "owner", "a1", 1, None), agent("r1", "owner", "a1", 2, None)],
    );
    assert_eq!(store.associated_agents[0].end_commit_num, MAX_COMMIT_NUM);
    assert_eq!(store.associated_agents[1].end_commit_num, MAX_COMMIT_NUM);
}

#[test]
fn updating_twice_is_updating_once() {
    let mut store = TrackAndTraceStore::new();
    insert_associated_agents(&mut store, &[agent("r1", "owner", "a1", 1, None)]);
    update_associated_agent_end_commit_num(&mut store, "r1", None, "owner", "a1", 7);
    assert_eq!(store.associated_agents[0].end_commit_num, 7);
    update_associated_agent_end_commit_num(&mut store, "r1", None, "owner", "a1", 7);
    assert_eq!(store.associated_agents[0].end_commit_num, 7);
    update_associated_agent_end_commit_num(&mut store, "r1", None, "owner", "a1", 9);
    assert_eq!(store.associated_agents[0].end_commit_num, 7);
}

#[test]
fn updating_an_agent_touches_only_its_key() {
    let mut store = TrackAndTraceStore::new();
    insert_associated_agents(
        &mut store,
        &[agent("r1", "owner", "a1", 1, None), agent("r1", "custodian", "a1", 1, None)],
    );
    update_associated_agent_end_commit_num(&mut store, "r1", None, "owner", "a1", 2);
    assert_eq!(store.associated_agents[0].end_commit_num, 2);
    assert_eq!(store.associated_agents[1].end_commit_num, MAX_COMMIT_NUM);
}

#[test]
fn listing_agents_filters_records_service_and_history() {
    let mut store = TrackAndTraceStore::new();
    insert_associated_agents(
        &mut store,
        &[
            agent("r1", "owner", "a1", 1, None),
            agent("r2", "owner", "a2", 1, None),
            agent("r3", "owner", "a3", 1, None),
            agent("r1", "owner", "a4", 1, Some("s1")),
        ],
    );
    update_associated_agent_end_commit_num(&mut store, "r2", None, "owner", "a2", 3);
    let listed = list_associated_agents(&store, &ids(&["r1", "r2"]), None);
    assert_eq!(listed, vec![agent("r1", "owner", "a1", 1, None)]);
    let listed = list_associated_agents(&store, &ids(&["r1"]), Some("s1"));
    assert_eq!(listed, vec![agent("r1", "owner", "a4", 1, Some("s1"))]);
    assert!(list_associated_agents(&store, &[], None).is_empty());
}

#[test]
fn a_written_record_is_fetched() {
    let mut store = TrackAndTraceStore::new();
    insert_records(&mut store, &[record("r1", "s", 1, Some("svc"))]);
    insert_records(&mut store, &[record("r1", "t", 2, None)]);
    assert_eq!(fetch_record(&store, "r1"), Some(record("r1", "t", 2, None)));
    assert_eq!(fetch_record(&store, "r2"), None);
}

#[test]
fn fetching_a_record_ignores_its_service() {
    let mut store = TrackAndTraceStore::new();
    insert_records(&mut store, &[record("r1", "s", 1, Some("a")), record("r1", "s", 1, Some("b"))]);
    assert_eq!(fetch_record(&store, "r1"), Some(record("r1", "s", 1, Some("a"))));
    update_record_end_commit_num(&mut store, "r1", Some("a"), 2);
    assert_eq!(fetch_record(&store, "r1"), Some(record("r1", "s", 1, Some("b"))));
}

#[test]
fn listing_records_by_service() {
    let mut store = TrackAndTraceStore::new();
    insert_records(
        &mut store,
        &[record("r1", "s", 1, None), record("r2", "s", 1, Some("x")), record("r3", "s", 1, Some("y"))],
    );
    assert_eq!(list_records(&store, None), vec![record("r1", "s", 1, None)]);
    assert_eq!(list_records(&store, Some("x")), vec![record("r2", "s", 1, Some("x"))]);
    update_record_end_commit_num(&mut store, "r2", None, 4);
    assert!(list_records(&store, Some("x")).is_empty());
}

#[test]
fn properties_and_their_versions() {
    let mut store = TrackAndTraceStore::new();
    insert_properties(&mut store, &[property("weight", "r1", 1, None), property("color", "r1", 1, None)]);
    insert_properties(&mut store, &[property("weight", "r1", 3, None)]);
    assert_eq!(store.properties[0].end_commit_num, 3);
    assert_eq!(store.properties[1].end_commit_num, MAX_COMMIT_NUM);
    update_property_end_commit_num(&mut store, "color", None, "r1", 4);
    assert_eq!(store.properties[1].end_commit_num, 4);
    assert_eq!(store.properties[2].end_commit_num, MAX_COMMIT_NUM);
}

#[test]
fn property_with_its_data_type() {
    let mut store = TrackAndTraceStore::new();
    insert_records(&mut store, &[record("r1", "fish", 1, None)]);
    insert_properties(&mut store, &[property("weight", "r1", 1, None)]);
    store.property_definitions.push(definition("weight", "fish", "NUMBER"));
    store.property_definitions.push(definition("weight", "bird", "STRING"));
    let fetched = fetch_property_with_data_type(&store, "r1", "weight", None);
    assert_eq!(fetched, Some((property("weight", "r1", 1, None), Some("NUMBER".to_string()))));
    assert_eq!(fetch_property_with_data_type(&store, "r1", "weight", Some("x")), None);
    assert_eq!(fetch_property_with_data_type(&store, "r1", "height", None), None);
}

#[test]
fn property_without_record_or_definition_has_no_data_type() {
    let mut store = TrackAndTraceStore::new();
    insert_properties(&mut store, &[property("weight", "r1", 1, None)]);
    assert_eq!(
        fetch_property_with_data_type(&store, "r1", "weight", None),
        Some((property("weight", "r1", 1, None), None))
    );
    insert_records(&mut store, &[record("r1", "fish", 1, None)]);
    assert_eq!(
        list_properties_with_data_type(&store, &ids(&["r1"]), None),
        vec![(property("weight", "r1", 1, None), None)]
    );
}

#[test]
fn listing_properties_gives_a_row_per_definition() {
    let mut store = TrackAndTraceStore::new();
    insert_records(&mut store, &[record("r1", "fish", 1, None), record("r2", "fish", 1, None)]);
    insert_properties(
        &mut store,
        &[property("weight", "r1", 1, None), property("weight", "r2", 1, None), property("size", "r3", 1, None)],
    );
    store.property_definitions.push(definition("weight", "fish", "NUMBER"));
    store.property_definitions.push(definition("weight", "fish", "STRING"));
    let rows = list_properties_with_data_type(&store, &ids(&["r1", "r3"]), None);
    assert_eq!(
        rows,
        vec![
            (property("weight", "r1", 1, None), Some("NUMBER".to_string())),
            (property("weight", "r1", 1, None), Some("STRING".to_string())),
            (property("size", "r3", 1, None), None),
        ]
    );
    let first = fetch_property_with_data_type(&store, "r1", "weight", None);
    assert_eq!(first, Some(rows[0].clone()));
}

#[test]
fn proposals_and_their_versions() {
    let mut store = TrackAndTraceStore::new();
    insert_proposals(&mut store, &[proposal("r1", "a1", "owner", 1, None)]);
    insert_proposals(&mut store, &[proposal("r1", "a1", "owner", 2, None), proposal("r1", "a2", "owner", 2, None)]);
    assert_eq!(store.proposals[0].end_commit_num, 2);
    let listed = list_proposals(&store, &ids(&["r1"]), None);
    assert_eq!(listed, vec![proposal("r1", "a1", "owner", 2, None), proposal("r1", "a2", "owner", 2, None)]);
    update_proposal_end_commit_num(&mut store, "r1", None, "a2", "owner", 3);
    assert_eq!(list_proposals(&store, &ids(&["r1"]), None).len(), 1);
}

#[test]
fn reported_values_and_their_versions() {
    let mut store = TrackAndTraceStore::new();
    insert_reported_values(&mut store, &[reported_value("r1", "weight", 1, 10)]);
    insert_reported_values(&mut store, &[reported_value("r1", "weight", 2, 11)]);
    assert_eq!(store.reported_values[0].end_commit_num, 2);
    assert_eq!(store.reported_values[1].end_commit_num, MAX_COMMIT_NUM);
    update_reported_value_end_commit_num(&mut store, "weight", None, "r1", 5);
    assert_eq!(store.reported_values[1].end_commit_num, 5);
}

#[test]
fn reporters_and_their_versions() {
    let mut store = TrackAndTraceStore::new();
    insert_reporters(
        &mut store,
        &[reporter("r1", "weight", "k1", 1, None), reporter("r1", "weight", "k2", 1, Some("s"))],
    );
    insert_reporters(&mut store, &[reporter("r1", "weight", "k1", 2, None)]);
    assert_eq!(store.reporters[0].end_commit_num, 2);
    let listed = list_reporters(&store, "r1", "weight");
    assert_eq!(listed, vec![reporter("r1", "weight", "k2", 1, Some("s")), reporter("r1", "weight", "k1", 2, None)]);
    update_reporter_end_commit_num(&mut store, "weight", Some("s"), "r1", "k2", 3);
    assert_eq!(list_reporters(&store, "r1", "weight"), vec![reporter("r1", "weight", "k1", 2, None)]);
}

#[test]
fn reported_values_with_reporters_by_commit_height() {
    let mut store = TrackAndTraceStore::new();
    store.reported_value_reporter_to_agent_metadata.push(metadata_row("r1", "weight", 5, 10));
    store.reported_value_reporter_to_agent_metadata.push(metadata_row("r1", "weight", MAX_COMMIT_NUM, 11));
    store.reported_value_reporter_to_agent_metadata.push(metadata_row("r2", "weight", MAX_COMMIT_NUM, 12));
    let current = fetch_reported_value_reporter_to_agent_metadata(&store, "r1", "weight", None);
    assert_eq!(current, Some(metadata_row("r1", "weight", MAX_COMMIT_NUM, 11)));
    let same = fetch_reported_value_reporter_to_agent_metadata(&store, "r1", "weight", Some(MAX_COMMIT_NUM));
    assert_eq!(same, current);
    let past = fetch_reported_value_reporter_to_agent_metadata(&store, "r1", "weight", Some(5));
    assert_eq!(past, Some(metadata_row("r1", "weight", 5, 10)));
    assert_eq!(fetch_reported_value_reporter_to_agent_metadata(&store, "r1", "weight", Some(6)), None);
    let all = list_reported_value_reporter_to_agent_metadata(&store, "r1", "weight");
    assert_eq!(all, vec![metadata_row("r1", "weight", 5, 10), metadata_row("r1", "weight", MAX_COMMIT_NUM, 11)]);
}

#[test]
fn one_current_version_per_entity_and_service() {
    let mut store = TrackAndTraceStore::new();
    insert_associated_agents(
        &mut store,
        &[agent("r1", "owner", "a1", 1, Some("s1")), agent("r1", "owner", "a1", 1, Some("s2"))],
    );
    insert_associated_agents(&mut store, &[agent("r1", "owner", "a1", 2, Some("s1"))]);
    insert_associated_agents(&mut store, &[agent("r1", "owner", "a1", 3, Some("s2"))]);
    insert_associated_agents(&mut store, &[agent("r1", "owner", "a1", 4, Some("s1"))]);
    for service in ["s1", "s2"] {
        let current = store
            .associated_agents
            .iter()
            .filter(|a| a.end_commit_num == MAX_COMMIT_NUM && a.service_id.as_deref() == Some(service))
            .count();
        assert_eq!(current, 1);
    }
    let starts: Vec<i64> = store.associated_agents.iter().map(|a| a.start_commit_num).collect();
    assert_eq!(starts, vec![1, 1, 2, 3, 4]);
    let ends: Vec<i64> = store.associated_agents.iter().map(|a| a.end_commit_num).collect();
    assert_eq!(ends, vec![2, 3, 4, MAX_COMMIT_NUM, MAX_COMMIT_NUM]);
}

#[test]
fn service_scopes_for_ending_and_listing() {
    assert!(matches!(ending_scope(None), EndingScope::AnyService));
    assert!(matches!(listing_scope(None), ListingScope::NoService));
    assert!(matches!(ending_scope(Some("s")), EndingScope::Service(s) if s == "s"));
    assert!(matches!(listing_scope(Some("s")), ListingScope::Service(s) if s == "s"));
    let any = EndingScope::AnyService;
    let one = EndingScope::Service("s".to_string());
    assert!(any.admits(&None) && any.admits(&Some("t".to_string())));
    assert!(one.admits(&Some("s".to_string())) && !one.admits(&Some("t".to_string())) && !one.admits(&None));
    let none = ListingScope::NoService;
    let listed = ListingScope::Service("s".to_string());
    assert!(none.admits(&None) && !none.admits(&Some("s".to_string())));
    assert!(listed.admits(&Some("s".to_string())) && !listed.admits(&None));
}

#[test]
fn end_requests_name_key_scope_and_commit() {
    let request = end_proposal_request("r1", Some("s"), "a1", "owner", 7);
    assert_eq!(request.key, vec!["r1".to_string(), "a1".to_string(), "owner".to_string()]);
    assert!(matches!(request.scope, EndingScope::Service(ref s) if s == "s"));
    assert_eq!(request.commit_num, 7);
    let request = end_reported_value_request("weight", None, "r1", 3);
    assert_eq!(request.key, vec!["r1".to_string(), "weight".to_string()]);
    assert!(matches!(request.scope, EndingScope::AnyService));
    assert_eq!(end_record_request("r1", None, 1).key, vec!["r1".to_string()]);
    assert_eq!(end_property_request("weight", None, "r1", 1).key, vec!["weight".to_string(), "r1".to_string()]);
    assert_eq!(end_associated_agent_request("r1", None, "owner", "a1", 1).key.len(), 3);
    assert_eq!(end_reporter_request("weight", None, "r1", "k", 1).key[2], "k");
}

#[test]
fn listing_more_records_keeps_rows() {
    let mut store = TrackAndTraceStore::new();
    insert_records(&mut store, &[record("r1", "fish", 1, None)]);
    insert_properties(&mut store, &[property("weight", "r1", 1, None), property("size", "r2", 1, None)]);
    store.property_definitions.push(definition("weight", "fish", "NUMBER"));
    let fewer = list_properties_with_data_type(&store, &ids(&["r1"]), None);
    let more = list_properties_with_data_type(&store, &ids(&["r2", "r1"]), None);
    for row in &fewer {
        assert!(more.contains(row));
    }
    assert_eq!(more.len(), 2);
    assert!(list_properties_with_data_type(&store, &[], None).is_empty());
}
