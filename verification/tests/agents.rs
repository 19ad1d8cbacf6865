use grid_daemon::agents::{agent_or_not_found, agent_slices, bad_protobuf_message, Agent, AgentSlice};
use grid_daemon::rest_api_error::RestApiResponseError;

fn metadata() -> serde_json::Value {
    serde_json::from_str("{\"name\": \"alice\"}").unwrap()
}

fn agent(key: &str, service: Option<&str>) -> Agent {
    Agent {
        public_key: key.to_string(),
        org_id: "org".to_string(),
        active: true,
        roles: vec!["admin".to_string(), "reporter".to_string()],
        metadata: metadata(),
        start_commit_num: 1,
        end_commit_num: 2,
        service_id: service.map(|s| s.to_string()),
    }
}

#[test]
fn slice_of_an_agent_drops_its_commits() {
    let slice = AgentSlice::from_agent(&agent("k1", Some("svc")));
    assert_eq!(slice.public_key, "k1");
    assert_eq!(slice.org_id, "org");
    assert!(slice.active);
    assert_eq!(slice.roles, vec!["admin".to_string(), "reporter".to_string()]);
    assert_eq!(slice.metadata, metadata());
    assert_eq!(slice.service_id, Some("svc".to_string()));
}

#[test]
fn listing_agents_slices_each_in_order() {
    let slices = agent_slices(&[agent("k1", None), agent("k2", Some("s"))]);
    assert_eq!(slices.len(), 2);
    assert_eq!(slices[0].public_key, "k1");
    assert_eq!(slices[0].service_id, None);
    assert_eq!(slices[1].public_key, "k2");
    assert!(agent_slices(&[]).is_empty());
}

#[test]
fn fetching_a_missing_agent_is_not_found() {
    match agent_or_not_found(None, "k9") {
        Err(RestApiResponseError::NotFoundError(m)) => {
            assert_eq!(m, "Could not find agent with public key: k9")
        }
        other => panic!("{:?}", other),
    }
    match agent_or_not_found(Some(agent("k1", None)), "k1") {
        Ok(slice) => assert_eq!(slice.public_key, "k1"),
        other => panic!("{:?}", other),
    }
}

#[test]
fn badly_formatted_protobuf_is_a_bad_request() {
    match bad_protobuf_message("truncated message") {
        RestApiResponseError::BadRequest(m) => {
            assert_eq!(m, "Protobuf message was badly formatted. truncated message")
        }
        other => panic!("{:?}", other),
    }
}
