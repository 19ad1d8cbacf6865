//! The track-and-trace store: the tables of associated agents, properties,
//! proposals, records, reported values and reporters, each keeping every
//! version of its entities, and the reads and writes on them.
use vstd::prelude::*;

use crate::laws::{
    lemma_associated_agent_versions_ended, lemma_property_versions_ended, lemma_proposal_versions_ended,
    lemma_record_versions_ended, lemma_reported_value_versions_ended, lemma_reporter_versions_ended,
};
use crate::models::{
    AssociatedAgent, AssociatedAgentView, GridPropertyDefinition, GridPropertyDefinitionView,
    NewAssociatedAgent, NewProperty, NewProposal, NewRecord, NewReportedValue, NewReporter,
    Property, PropertyView, Proposal, ProposalView, Record, RecordView, ReportedValue,
    ReportedValueReporterToAgentMetadata, ReportedValueReporterToAgentMetadataView,
    ReportedValueView, Reporter, ReporterView,
};
use crate::table::{
    close_current_versions, ending_scope, ending_service, insert_new_versions,
    list_current_for_service, list_current_versions, listing_scope, listing_service, string_eq,
    EndVersionsRequest,
};
use crate::versioned::{
    close_versions, first_of, insert_versions, lemma_filter_all, lemma_filter_filter,
    lemma_filter_first, lemma_filter_none, lemma_filter_none_further, lemma_insert_single,
    lemma_single_filter, listed_versions, listing, listing_for_service, opt_str_view,
    opt_string_view, opt_view, service_filter_admits, service_listing_admits, strings_view, views, VersionView,
};
use crate::MAX_COMMIT_NUM;

verus! {

/// The tables of the track-and-trace state.
pub struct TrackAndTraceStore {
    pub associated_agents: Vec<AssociatedAgent>,
    pub properties: Vec<Property>,
    pub proposals: Vec<Proposal>,
    pub records: Vec<Record>,
    pub reported_values: Vec<ReportedValue>,
    pub reporters: Vec<Reporter>,
    pub property_definitions: Vec<GridPropertyDefinition>,
    pub reported_value_reporter_to_agent_metadata: Vec<ReportedValueReporterToAgentMetadata>,
}

/// The view of a [`TrackAndTraceStore`]: each table as a sequence of row views.
pub struct TrackAndTraceStoreView {
    pub associated_agents: Seq<AssociatedAgentView>,
    pub properties: Seq<PropertyView>,
    pub proposals: Seq<ProposalView>,
    pub records: Seq<RecordView>,
    pub reported_values: Seq<ReportedValueView>,
    pub reporters: Seq<ReporterView>,
    pub property_definitions: Seq<GridPropertyDefinitionView>,
    pub reported_value_reporter_to_agent_metadata: Seq<ReportedValueReporterToAgentMetadataView>,
}

impl View for TrackAndTraceStore {
    type V = TrackAndTraceStoreView;

    open spec fn view(&self) -> TrackAndTraceStoreView {
        TrackAndTraceStoreView {
            associated_agents: views(self.associated_agents@),
            properties: views(self.properties@),
            proposals: views(self.proposals@),
            records: views(self.records@),
            reported_values: views(self.reported_values@),
            reporters: views(self.reporters@),
            property_definitions: views(self.property_definitions@),
            reported_value_reporter_to_agent_metadata: views(
                self.reported_value_reporter_to_agent_metadata@,
            ),
        }
    }
}

impl TrackAndTraceStore {
    /// A store with every table empty.
    pub fn new() -> (r: Self)
        ensures
            r@.associated_agents.len() == 0,
            r@.properties.len() == 0,
            r@.proposals.len() == 0,
            r@.records.len() == 0,
            r@.reported_values.len() == 0,
            r@.reporters.len() == 0,
            r@.property_definitions.len() == 0,
            r@.reported_value_reporter_to_agent_metadata.len() == 0,
    {
        TrackAndTraceStore {
            associated_agents: Vec::new(),
            properties: Vec::new(),
            proposals: Vec::new(),
            records: Vec::new(),
            reported_values: Vec::new(),
            reporters: Vec::new(),
            property_definitions: Vec::new(),
            reported_value_reporter_to_agent_metadata: Vec::new(),
        }
    }
}

fn owned(s: &str) -> (r: String)
    ensures
        r@ == s@,
{
    String::from_str(s)
}

/// The ending, at `current_commit_num`, of the current versions of
/// the agent's role on the record, as plain values: the key columns in the order of the version key,
/// the scope of `service_id` (every service where it is `None`), the commit.
pub fn end_associated_agent_request(
    record_id: &str,
    service_id: Option<&str>,
    role: &str,
    agent_id: &str,
    current_commit_num: i64,
) -> (r: EndVersionsRequest)
    ensures
        strings_view(r.key@) == seq![record_id@, role@, agent_id@],
        ending_service(r.scope) == opt_str_view(service_id),
        r.commit_num == current_commit_num,
{
    let key = vec![owned(record_id), owned(role), owned(agent_id)];
    assert(strings_view(key@) =~= seq![record_id@, role@, agent_id@]);
    EndVersionsRequest { key, scope: ending_scope(service_id), commit_num: current_commit_num }
}

/// The ending, at `current_commit_num`, of the current versions of
/// the record's property, as plain values: the key columns in the order of the version key,
/// the scope of `service_id` (every service where it is `None`), the commit.
pub fn end_property_request(
    name: &str,
    service_id: Option<&str>,
    record_id: &str,
    current_commit_num: i64,
) -> (r: EndVersionsRequest)
    ensures
        strings_view(r.key@) == seq![name@, record_id@],
        ending_service(r.scope) == opt_str_view(service_id),
        r.commit_num == current_commit_num,
{
    let key = vec![owned(name), owned(record_id)];
    assert(strings_view(key@) =~= seq![name@, record_id@]);
    EndVersionsRequest { key, scope: ending_scope(service_id), commit_num: current_commit_num }
}

/// The ending, at `current_commit_num`, of the current versions of
/// the proposal of the role on the record to the receiving agent, as plain values: the key columns in the order of the version key,
/// the scope of `service_id` (every service where it is `None`), the commit.
pub fn end_proposal_request(
    record_id: &str,
    service_id: Option<&str>,
    receiving_agent: &str,
    role: &str,
    current_commit_num: i64,
) -> (r: EndVersionsRequest)
    ensures
        strings_view(r.key@) == seq![record_id@, receiving_agent@, role@],
        ending_service(r.scope) == opt_str_view(service_id),
        r.commit_num == current_commit_num,
{
    let key = vec![owned(record_id), owned(receiving_agent), owned(role)];
    assert(strings_view(key@) =~= seq![record_id@, receiving_agent@, role@]);
    EndVersionsRequest { key, scope: ending_scope(service_id), commit_num: current_commit_num }
}

/// The ending, at `current_commit_num`, of the current versions of
/// the record, as plain values: the key columns in the order of the version key,
/// the scope of `service_id` (every service where it is `None`), the commit.
pub fn end_record_request(
    record_id: &str,
    service_id: Option<&str>,
    current_commit_num: i64,
) -> (r: EndVersionsRequest)
    ensures
        strings_view(r.key@) == seq![record_id@],
        ending_service(r.scope) == opt_str_view(service_id),
        r.commit_num == current_commit_num,
{
    let key = vec![owned(record_id)];
    assert(strings_view(key@) =~= seq![record_id@]);
    EndVersionsRequest { key, scope: ending_scope(service_id), commit_num: current_commit_num }
}

/// The ending, at `current_commit_num`, of the current versions of
/// the values reported for the record's property, as plain values: the key columns in the order of the version key,
/// the scope of `service_id` (every service where it is `None`), the commit.
pub fn end_reported_value_request(
    property_name: &str,
    service_id: Option<&str>,
    record_id: &str,
    current_commit_num: i64,
) -> (r: EndVersionsRequest)
    ensures
        strings_view(r.key@) == seq![record_id@, property_name@],
        ending_service(r.scope) == opt_str_view(service_id),
        r.commit_num == current_commit_num,
{
    let key = vec![owned(record_id), owned(property_name)];
    assert(strings_view(key@) =~= seq![record_id@, property_name@]);
    EndVersionsRequest { key, scope: ending_scope(service_id), commit_num: current_commit_num }
}

/// The ending, at `current_commit_num`, of the current versions of
/// the reporter with `public_key` on the record's property, as plain values: the key columns in the order of the version key,
/// the scope of `service_id` (every service where it is `None`), the commit.
pub fn end_reporter_request(
    property_name: &str,
    service_id: Option<&str>,
    record_id: &str,
    public_key: &str,
    current_commit_num: i64,
) -> (r: EndVersionsRequest)
    ensures
        strings_view(r.key@) == seq![record_id@, property_name@, public_key@],
        ending_service(r.scope) == opt_str_view(service_id),
        r.commit_num == current_commit_num,
{
    let key = vec![owned(record_id), owned(property_name), owned(public_key)];
    assert(strings_view(key@) =~= seq![record_id@, property_name@, public_key@]);
    EndVersionsRequest { key, scope: ending_scope(service_id), commit_num: current_commit_num }
}

/// Writes new versions of associated agents: for each in turn, the current
/// versions of its (record, role, agent) for its service, or for every
/// service where it has none, end at its start commit; then all are added.
pub fn insert_associated_agents(store: &mut TrackAndTraceStore, agents: &[NewAssociatedAgent])
    ensures
        final(store)@ == (TrackAndTraceStoreView {
            associated_agents: insert_versions(old(store)@.associated_agents, views(agents@)),
            ..old(store)@
        }),
{
    insert_new_versions(&mut store.associated_agents, agents);
}

/// Ends, at `current_commit_num`, the current versions of the agent's role
/// on the record; only those of `service_id` where one is given.
pub fn update_associated_agent_end_commit_num(
    store: &mut TrackAndTraceStore,
    record_id: &str,
    service_id: Option<&str>,
    role: &str,
    agent_id: &str,
    current_commit_num: i64,
)
    ensures
        final(store)@ == (TrackAndTraceStoreView {
            associated_agents: close_versions(
                old(store)@.associated_agents,
                seq![record_id@, role@, agent_id@],
                opt_str_view(service_id),
                current_commit_num,
            ),
            ..old(store)@
        }),
        final(store)@.associated_agents.len() == old(store)@.associated_agents.len(),
        forall|i: int|
            #![trigger old(store)@.associated_agents[i]]
            0 <= i < old(store)@.associated_agents.len() ==> {
                let row = old(store)@.associated_agents[i];
                final(store)@.associated_agents[i] == if row.record_id == record_id@
                    && row.role == role@
                    && row.agent_id == agent_id@
                    && row.end_commit_num == MAX_COMMIT_NUM
                    && (service_id is None || row.service_id == opt_str_view(service_id)) {
                    AssociatedAgentView { end_commit_num: current_commit_num, ..row }
                } else {
                    row
                }
            },
{
    let ghost before = store@.associated_agents;
    let request = end_associated_agent_request(record_id, service_id, role, agent_id, current_commit_num);
    close_current_versions(&mut store.associated_agents, &request.key, &request.scope, request.commit_num);
    proof {
        lemma_associated_agent_versions_ended(
            before, record_id@, role@, agent_id@,
            opt_str_view(service_id), current_commit_num,
        );
    }
}

/// The current associated agents of the records `record_ids` that belong to
/// the service `service_id`, or to no service where it is `None`.
pub fn list_associated_agents(
    store: &TrackAndTraceStore,
    record_ids: &[String],
    service_id: Option<&str>,
) -> (r: Vec<AssociatedAgent>)
    ensures
        views(r@) == listed_versions(
            store@.associated_agents,
            strings_view(record_ids@),
            opt_str_view(service_id),
        ),
{
    list_current_versions(&store.associated_agents, record_ids, &listing_scope(service_id))
}

/// Writes new versions of properties: for each in turn, the current versions
/// of its (name, record) for its service, or for every service where it has
/// none, end at its start commit; then all are added.
pub fn insert_properties(store: &mut TrackAndTraceStore, properties: &[NewProperty])
    ensures
        final(store)@ == (TrackAndTraceStoreView {
            properties: insert_versions(old(store)@.properties, views(properties@)),
            ..old(store)@
        }),
{
    insert_new_versions(&mut store.properties, properties);
}

/// Ends, at `current_commit_num`, the current versions of the record's
/// property; only those of `service_id` where one is given.
pub fn update_property_end_commit_num(
    store: &mut TrackAndTraceStore,
    name: &str,
    service_id: Option<&str>,
    record_id: &str,
    current_commit_num: i64,
)
    ensures
        final(store)@ == (TrackAndTraceStoreView {
            properties: close_versions(
                old(store)@.properties,
                seq![name@, record_id@],
                opt_str_view(service_id),
                current_commit_num,
            ),
            ..old(store)@
        }),
        final(store)@.properties.len() == old(store)@.properties.len(),
        forall|i: int|
            #![trigger old(store)@.properties[i]]
            0 <= i < old(store)@.properties.len() ==> {
                let row = old(store)@.properties[i];
                final(store)@.properties[i] == if row.name == name@
                    && row.record_id == record_id@
                    && row.end_commit_num == MAX_COMMIT_NUM
                    && (service_id is None || row.service_id == opt_str_view(service_id)) {
                    PropertyView { end_commit_num: current_commit_num, ..row }
                } else {
                    row
                }
            },
{
    let ghost before = store@.properties;
    let request = end_property_request(name, service_id, record_id, current_commit_num);
    close_current_versions(&mut store.properties, &request.key, &request.scope, request.commit_num);
    proof {
        lemma_property_versions_ended(
            before, name@, record_id@,
            opt_str_view(service_id), current_commit_num,
        );
    }
}

/// Writes new versions of proposals: for each in turn, the current versions
/// of its (record, receiving agent, role) for its service, or for every
/// service where it has none, end at its start commit; then all are added.
pub fn insert_proposals(store: &mut TrackAndTraceStore, proposals: &[NewProposal])
    ensures
        final(store)@ == (TrackAndTraceStoreView {
            proposals: insert_versions(old(store)@.proposals, views(proposals@)),
            ..old(store)@
        }),
{
    insert_new_versions(&mut store.proposals, proposals);
}

/// Ends, at `current_commit_num`, the current versions of the proposal of the
/// role on the record to the receiving agent; only those of `service_id`
/// where one is given.
pub fn update_proposal_end_commit_num(
    store: &mut TrackAndTraceStore,
    record_id: &str,
    service_id: Option<&str>,
    receiving_agent: &str,
    role: &str,
    current_commit_num: i64,
)
    ensures
        final(store)@ == (TrackAndTraceStoreView {
            proposals: close_versions(
                old(store)@.proposals,
                seq![record_id@, receiving_agent@, role@],
                opt_str_view(service_id),
                current_commit_num,
            ),
            ..old(store)@
        }),
        final(store)@.proposals.len() == old(store)@.proposals.len(),
        forall|i: int|
            #![trigger old(store)@.proposals[i]]
            0 <= i < old(store)@.proposals.len() ==> {
                let row = old(store)@.proposals[i];
                final(store)@.proposals[i] == if row.record_id == record_id@
                    && row.receiving_agent == receiving_agent@
                    && row.role == role@
                    && row.end_commit_num == MAX_COMMIT_NUM
                    && (service_id is None || row.service_id == opt_str_view(service_id)) {
                    ProposalView { end_commit_num: current_commit_num, ..row }
                } else {
                    row
                }
            },
{
    let ghost before = store@.proposals;
    let request = end_proposal_request(record_id, service_id, receiving_agent, role, current_commit_num);
    close_current_versions(&mut store.proposals, &request.key, &request.scope, request.commit_num);
    proof {
        lemma_proposal_versions_ended(
            before, record_id@, receiving_agent@, role@,
            opt_str_view(service_id), current_commit_num,
        );
    }
}

/// The current proposals on the records `record_ids` that belong to the
/// service `service_id`, or to no service where it is `None`.
pub fn list_proposals(
    store: &TrackAndTraceStore,
    record_ids: &[String],
    service_id: Option<&str>,
) -> (r: Vec<Proposal>)
    ensures
        views(r@) == listed_versions(store@.proposals, strings_view(record_ids@), opt_str_view(service_id)),
{
    list_current_versions(&store.proposals, record_ids, &listing_scope(service_id))
}

/// Writes new versions of records: for each in turn, the current versions of
/// its record for its service, or for every service where it has none, end
/// at its start commit; then all are added.
pub fn insert_records(store: &mut TrackAndTraceStore, records: &[NewRecord])
    ensures
        final(store)@ == (TrackAndTraceStoreView {
            records: insert_versions(old(store)@.records, views(records@)),
            ..old(store)@
        }),
{
    insert_new_versions(&mut store.records, records);
}

/// Ends, at `current_commit_num`, the current versions of the record; only
/// those of `service_id` where one is given.
pub fn update_record_end_commit_num(
    store: &mut TrackAndTraceStore,
    record_id: &str,
    service_id: Option<&str>,
    current_commit_num: i64,
)
    ensures
        final(store)@ == (TrackAndTraceStoreView {
            records: close_versions(
                old(store)@.records,
                seq![record_id@],
                opt_str_view(service_id),
                current_commit_num,
            ),
            ..old(store)@
        }),
        final(store)@.records.len() == old(store)@.records.len(),
        forall|i: int|
            #![trigger old(store)@.records[i]]
            0 <= i < old(store)@.records.len() ==> {
                let row = old(store)@.records[i];
                final(store)@.records[i] == if row.record_id == record_id@
                    && row.end_commit_num == MAX_COMMIT_NUM
                    && (service_id is None || row.service_id == opt_str_view(service_id)) {
                    RecordView { end_commit_num: current_commit_num, ..row }
                } else {
                    row
                }
            },
{
    let ghost before = store@.records;
    let request = end_record_request(record_id, service_id, current_commit_num);
    close_current_versions(&mut store.records, &request.key, &request.scope, request.commit_num);
    proof {
        lemma_record_versions_ended(
            before, record_id@,
            opt_str_view(service_id), current_commit_num,
        );
    }
}

/// Writes new versions of reported values: for each in turn, the current
/// versions of its (record, property) for its service, or for every service
/// where it has none, end at its start commit; then all are added.
pub fn insert_reported_values(store: &mut TrackAndTraceStore, values: &[NewReportedValue])
    ensures
        final(store)@ == (TrackAndTraceStoreView {
            reported_values: insert_versions(old(store)@.reported_values, views(values@)),
            ..old(store)@
        }),
{
    insert_new_versions(&mut store.reported_values, values);
}

/// Ends, at `current_commit_num`, the current values reported for the
/// record's property; only those of `service_id` where one is given.
pub fn update_reported_value_end_commit_num(
    store: &mut TrackAndTraceStore,
    property_name: &str,
    service_id: Option<&str>,
    record_id: &str,
    current_commit_num: i64,
)
    ensures
        final(store)@ == (TrackAndTraceStoreView {
            reported_values: close_versions(
                old(store)@.reported_values,
                seq![record_id@, property_name@],
                opt_str_view(service_id),
                current_commit_num,
            ),
            ..old(store)@
        }),
        final(store)@.reported_values.len() == old(store)@.reported_values.len(),
        forall|i: int|
            #![trigger old(store)@.reported_values[i]]
            0 <= i < old(store)@.reported_values.len() ==> {
                let row = old(store)@.reported_values[i];
                final(store)@.reported_values[i] == if row.record_id == record_id@
                    && row.property_name == property_name@
                    && row.end_commit_num == MAX_COMMIT_NUM
                    && (service_id is None || row.service_id == opt_str_view(service_id)) {
                    ReportedValueView { end_commit_num: current_commit_num, ..row }
                } else {
                    row
                }
            },
{
    let ghost before = store@.reported_values;
    let request = end_reported_value_request(property_name, service_id, record_id, current_commit_num);
    close_current_versions(&mut store.reported_values, &request.key, &request.scope, request.commit_num);
    proof {
        lemma_reported_value_versions_ended(
            before, record_id@, property_name@,
            opt_str_view(service_id), current_commit_num,
        );
    }
}

/// Writes new versions of reporters: for each in turn, the current versions
/// of its (record, property, public key) for its service, or for every
/// service where it has none, end at its start commit; then all are added.
pub fn insert_reporters(store: &mut TrackAndTraceStore, reporters: &[NewReporter])
    ensures
        final(store)@ == (TrackAndTraceStoreView {
            reporters: insert_versions(old(store)@.reporters, views(reporters@)),
            ..old(store)@
        }),
{
    insert_new_versions(&mut store.reporters, reporters);
}

/// Ends, at `current_commit_num`, the current versions of the reporter with
/// `public_key` on the record's property; only those of `service_id` where
/// one is given.
pub fn update_reporter_end_commit_num(
    store: &mut TrackAndTraceStore,
    property_name: &str,
    service_id: Option<&str>,
    record_id: &str,
    public_key: &str,
    current_commit_num: i64,
)
    ensures
        final(store)@ == (TrackAndTraceStoreView {
            reporters: close_versions(
                old(store)@.reporters,
                seq![record_id@, property_name@, public_key@],
                opt_str_view(service_id),
                current_commit_num,
            ),
            ..old(store)@
        }),
        final(store)@.reporters.len() == old(store)@.reporters.len(),
        forall|i: int|
            #![trigger old(store)@.reporters[i]]
            0 <= i < old(store)@.reporters.len() ==> {
                let row = old(store)@.reporters[i];
                final(store)@.reporters[i] == if row.record_id == record_id@
                    && row.property_name == property_name@
                    && row.public_key == public_key@
                    && row.end_commit_num == MAX_COMMIT_NUM
                    && (service_id is None || row.service_id == opt_str_view(service_id)) {
                    ReporterView { end_commit_num: current_commit_num, ..row }
                } else {
                    row
                }
            },
{
    let ghost before = store@.reporters;
    let request = end_reporter_request(property_name, service_id, record_id, public_key, current_commit_num);
    close_current_versions(&mut store.reporters, &request.key, &request.scope, request.commit_num);
    proof {
        lemma_reporter_versions_ended(
            before, record_id@, property_name@, public_key@,
            opt_str_view(service_id), current_commit_num,
        );
    }
}

/// Whether `row` is the current version of the record `record_id`, of any service.
pub open spec fn is_current_record(row: RecordView, record_id: Seq<char>) -> bool {
    row.record_id == record_id && row.end_commit_num == MAX_COMMIT_NUM
}

/// The predicate of the current versions of the record `record_id`.
pub open spec fn current_record(record_id: Seq<char>) -> spec_fn(RecordView) -> bool {
    |row: RecordView| is_current_record(row, record_id)
}

/// The first current version of the record `record_id`, of any service, in
/// table order; `None` where it has none.
pub fn fetch_record(store: &TrackAndTraceStore, record_id: &str) -> (r: Option<Record>)
    ensures
        opt_view(r) == first_of(store@.records.filter(current_record(record_id@))),
{
    let rid = owned(record_id);
    let ghost pred = current_record(record_id@);
    let ghost t = store@.records;
    let mut i: usize = 0;
    while i < store.records.len()
        invariant
            i <= t.len(),
            t == store@.records,
            rid@ == record_id@,
            pred == current_record(record_id@),
            t.take(i as int).filter(pred).len() == 0,
        decreases t.len() - i,
    {
        let row = &store.records[i];
        if string_eq(&row.record_id, &rid) && row.end_commit_num == MAX_COMMIT_NUM {
            proof {
                lemma_filter_first(t, pred, i as int);
            }
            return Some(row.clone());
        }
        proof {
            lemma_filter_none_further(t, pred, i as int);
        }
        i = i + 1;
    }
    assert(t.take(t.len() as int) =~= t);
    None
}

/// The current records that belong to the service `service_id`, or to no
/// service where it is `None`.
pub fn list_records(store: &TrackAndTraceStore, service_id: Option<&str>) -> (r: Vec<Record>)
    ensures
        views(r@) == store@.records.filter(listing_for_service(opt_str_view(service_id))),
{
    list_current_for_service(&store.records, &listing_scope(service_id))
}

/// Whether `row` is a current reporter of the record's property, of any service.
pub open spec fn is_current_reporter(row: ReporterView, record_id: Seq<char>, property_name: Seq<char>) -> bool {
    &&& row.property_name == property_name
    &&& row.record_id == record_id
    &&& row.end_commit_num == MAX_COMMIT_NUM
}

/// The predicate of the current reporters of the record's property.
pub open spec fn current_reporter(record_id: Seq<char>, property_name: Seq<char>) -> spec_fn(ReporterView) -> bool {
    |row: ReporterView| is_current_reporter(row, record_id, property_name)
}

/// The current reporters of the record's property, of any service.
pub fn list_reporters(store: &TrackAndTraceStore, record_id: &str, property_name: &str) -> (r: Vec<Reporter>)
    ensures
        views(r@) == store@.reporters.filter(current_reporter(record_id@, property_name@)),
{
    let rid = owned(record_id);
    let name = owned(property_name);
    let ghost pred = current_reporter(record_id@, property_name@);
    let ghost t = store@.reporters;
    let mut r: Vec<Reporter> = Vec::new();
    let mut i: usize = 0;
    while i < store.reporters.len()
        invariant
            i <= t.len(),
            t == store@.reporters,
            rid@ == record_id@,
            name@ == property_name@,
            pred == current_reporter(record_id@, property_name@),
            views(r@) == t.take(i as int).filter(pred),
        decreases t.len() - i,
    {
        let row = &store.reporters[i];
        let keep = string_eq(&row.property_name, &name) && string_eq(&row.record_id, &rid)
            && row.end_commit_num == MAX_COMMIT_NUM;
        proof {
            t.take(i as int).lemma_filter_push(t[i as int], pred);
            assert(t.take(i + 1) =~= t.take(i as int).push(t[i as int]));
        }
        if keep {
            let ghost before = r@;
            r.push(row.clone());
            assert(views(r@) =~= views(before).push(t[i as int]));
        }
        i = i + 1;
    }
    assert(t.take(t.len() as int) =~= t);
    r
}

/// The end commit at which values are read: the given commit height, or the
/// current one where none is given.
pub open spec fn commit_height_or_current(commit_height: Option<i64>) -> i64 {
    match commit_height {
        Some(h) => h,
        None => MAX_COMMIT_NUM,
    }
}

/// Whether `row` is a value of the record's property whose version ends at `end`.
pub open spec fn is_value_ending_at(
    row: ReportedValueReporterToAgentMetadataView,
    record_id: Seq<char>,
    property_name: Seq<char>,
    end: i64,
) -> bool {
    &&& row.property_name == property_name
    &&& row.record_id == record_id
    &&& row.reported_value_end_commit_num == end
}

/// The predicate of the values of the record's property that end at `end`.
pub open spec fn value_ending_at(record_id: Seq<char>, property_name: Seq<char>, end: i64) -> spec_fn(
    ReportedValueReporterToAgentMetadataView,
) -> bool {
    |row: ReportedValueReporterToAgentMetadataView| is_value_ending_at(row, record_id, property_name, end)
}

/// The first value reported for the record's property, with its reporter and
/// the reporting agent's metadata, whose version ends at `commit_height`, or
/// is current where no height is given; `None` where there is none.
pub fn fetch_reported_value_reporter_to_agent_metadata(
    store: &TrackAndTraceStore,
    record_id: &str,
    property_name: &str,
    commit_height: Option<i64>,
) -> (r: Option<ReportedValueReporterToAgentMetadata>)
    ensures
        opt_view(r) == first_of(
            store@.reported_value_reporter_to_agent_metadata.filter(
                value_ending_at(record_id@, property_name@, commit_height_or_current(commit_height)),
            ),
        ),
{
    let end = match commit_height {
        Some(h) => h,
        None => MAX_COMMIT_NUM,
    };
    let rid = owned(record_id);
    let name = owned(property_name);
    let ghost pred = value_ending_at(record_id@, property_name@, end);
    let ghost t = store@.reported_value_reporter_to_agent_metadata;
    let mut i: usize = 0;
    while i < store.reported_value_reporter_to_agent_metadata.len()
        invariant
            i <= t.len(),
            t == store@.reported_value_reporter_to_agent_metadata,
            rid@ == record_id@,
            name@ == property_name@,
            pred == value_ending_at(record_id@, property_name@, end),
            end == commit_height_or_current(commit_height),
            t.take(i as int).filter(pred).len() == 0,
        decreases t.len() - i,
    {
        let row = &store.reported_value_reporter_to_agent_metadata[i];
        if string_eq(&row.property_name, &name) && string_eq(&row.record_id, &rid)
            && row.reported_value_end_commit_num == end {
            proof {
                lemma_filter_first(t, pred, i as int);
            }
            return Some(row.clone());
        }
        proof {
            lemma_filter_none_further(t, pred, i as int);
        }
        i = i + 1;
    }
    assert(t.take(t.len() as int) =~= t);
    None
}

/// Whether `row` is a value of the record's property whose version ends at
/// or before the open-ended commit.
pub open spec fn is_value_of(
    row: ReportedValueReporterToAgentMetadataView,
    record_id: Seq<char>,
    property_name: Seq<char>,
) -> bool {
    &&& row.property_name == property_name
    &&& row.record_id == record_id
    &&& row.reported_value_end_commit_num <= MAX_COMMIT_NUM
}

/// The predicate of the values of the record's property.
pub open spec fn value_of(record_id: Seq<char>, property_name: Seq<char>) -> spec_fn(
    ReportedValueReporterToAgentMetadataView,
) -> bool {
    |row: ReportedValueReporterToAgentMetadataView| is_value_of(row, record_id, property_name)
}

/// Every value reported for the record's property, current and past, with
/// its reporter and the reporting agent's metadata.
pub fn list_reported_value_reporter_to_agent_metadata(
    store: &TrackAndTraceStore,
    record_id: &str,
    property_name: &str,
) -> (r: Vec<ReportedValueReporterToAgentMetadata>)
    ensures
        views(r@) == store@.reported_value_reporter_to_agent_metadata.filter(
            value_of(record_id@, property_name@),
        ),
{
    let rid = owned(record_id);
    let name = owned(property_name);
    let ghost pred = value_of(record_id@, property_name@);
    let ghost t = store@.reported_value_reporter_to_agent_metadata;
    let mut r: Vec<ReportedValueReporterToAgentMetadata> = Vec::new();
    let mut i: usize = 0;
    while i < store.reported_value_reporter_to_agent_metadata.len()
        invariant
            i <= t.len(),
            t == store@.reported_value_reporter_to_agent_metadata,
            rid@ == record_id@,
            name@ == property_name@,
            pred == value_of(record_id@, property_name@),
            views(r@) == t.take(i as int).filter(pred),
        decreases t.len() - i,
    {
        let row = &store.reported_value_reporter_to_agent_metadata[i];
        let keep = string_eq(&row.property_name, &name) && string_eq(&row.record_id, &rid)
            && row.reported_value_end_commit_num <= MAX_COMMIT_NUM;
        proof {
            t.take(i as int).lemma_filter_push(t[i as int], pred);
            assert(t.take(i + 1) =~= t.take(i as int).push(t[i as int]));
        }
        if keep {
            let ghost before = r@;
            r.push(row.clone());
            assert(views(r@) =~= views(before).push(t[i as int]));
        }
        i = i + 1;
    }
    assert(t.take(t.len() as int) =~= t);
    r
}

/// The predicate of the records that a property joins: the versions of its
/// record that end where the property's version ends.
pub open spec fn joined_records(p: PropertyView) -> spec_fn(RecordView) -> bool {
    |r: RecordView| r.record_id == p.record_id && r.end_commit_num == p.end_commit_num
}

/// The predicate of the property definitions that a property joins through
/// the record `r`: those of the property's name in the record's schema.
pub open spec fn joined_definitions(p: PropertyView, r: RecordView) -> spec_fn(
    GridPropertyDefinitionView,
) -> bool {
    |d: GridPropertyDefinitionView|
        r.schema == d.schema_name && p.name == d.name && p.end_commit_num == r.end_commit_num
}

/// The data types that a property takes through the record `r`: one per
/// joined definition, or a single `None` where no definition joins.
pub open spec fn data_types_through(
    p: PropertyView,
    r: RecordView,
    defs: Seq<GridPropertyDefinitionView>,
) -> Seq<Option<Seq<char>>> {
    let ds = defs.filter(joined_definitions(p, r));
    if ds.len() == 0 {
        seq![None]
    } else {
        ds.map_values(|d: GridPropertyDefinitionView| Some(d.data_type))
    }
}

/// The data types that a property takes: those through each joined record in
/// table order, or a single `None` where no record joins.
pub open spec fn joined_data_types(
    p: PropertyView,
    records: Seq<RecordView>,
    defs: Seq<GridPropertyDefinitionView>,
) -> Seq<Option<Seq<char>>> {
    let rs = records.filter(joined_records(p));
    if rs.len() == 0 {
        seq![None]
    } else {
        rs.map_values(|r: RecordView| data_types_through(p, r, defs)).flatten()
    }
}

/// The rows that a property yields: the property paired with each of its
/// data types.
pub open spec fn rows_of_property(
    p: PropertyView,
    records: Seq<RecordView>,
    defs: Seq<GridPropertyDefinitionView>,
) -> Seq<(PropertyView, Option<Seq<char>>)> {
    joined_data_types(p, records, defs).map_values(|dt: Option<Seq<char>>| (p, dt))
}

/// The rows that the properties `props` yield, in order.
pub open spec fn properties_with_data_types(
    props: Seq<PropertyView>,
    records: Seq<RecordView>,
    defs: Seq<GridPropertyDefinitionView>,
) -> Seq<(PropertyView, Option<Seq<char>>)> {
    props.map_values(|p: PropertyView| rows_of_property(p, records, defs)).flatten()
}

/// The views of optional strings.
pub open spec fn opt_strings_seq_view(s: Seq<Option<String>>) -> Seq<Option<Seq<char>>> {
    s.map_values(|o: Option<String>| opt_string_view(o))
}

/// The views of properties paired with optional data types.
pub open spec fn typed_rows_view(s: Seq<(Property, Option<String>)>) -> Seq<(PropertyView, Option<Seq<char>>)> {
    s.map_values(|x: (Property, Option<String>)| (x.0@, opt_string_view(x.1)))
}

fn data_types_through_record(
    p: &Property,
    r: &Record,
    defs: &Vec<GridPropertyDefinition>,
) -> (v: Vec<Option<String>>)
    requires
        r@.record_id == p@.record_id && r@.end_commit_num == p@.end_commit_num,
    ensures
        opt_strings_seq_view(v@) == data_types_through(p@, r@, views(defs@)),
{
    let ghost t = views(defs@);
    let ghost pred = joined_definitions(p@, r@);
    let ghost f = |d: GridPropertyDefinitionView| Some(d.data_type);
    let mut v: Vec<Option<String>> = Vec::new();
    let mut i: usize = 0;
    while i < defs.len()
        invariant
            i <= t.len(),
            t == views(defs@),
            pred == joined_definitions(p@, r@),
            f == (|d: GridPropertyDefinitionView| Some(d.data_type)),
            r@.end_commit_num == p@.end_commit_num,
            opt_strings_seq_view(v@) == t.take(i as int).filter(pred).map_values(f),
        decreases t.len() - i,
    {
        let d = &defs[i];
        let keep = string_eq(&r.schema, &d.schema_name) && string_eq(&p.name, &d.name);
        proof {
            t.take(i as int).lemma_filter_push(t[i as int], pred);
            assert(t.take(i + 1) =~= t.take(i as int).push(t[i as int]));
        }
        if keep {
            let ghost before = v@;
            v.push(Some(d.data_type.clone()));
            assert(opt_strings_seq_view(v@) =~= opt_strings_seq_view(before).push(f(t[i as int])));
            assert(t.take(i as int).filter(pred).push(t[i as int]).map_values(f) =~= t.take(
                i as int,
            ).filter(pred).map_values(f).push(f(t[i as int])));
        }
        i = i + 1;
    }
    assert(t.take(t.len() as int) =~= t);
    if v.len() == 0 {
        let none: Option<String> = None;
        let w = vec![none];
        assert(opt_strings_seq_view(w@) =~= seq![None]);
        w
    } else {
        v
    }
}

fn data_types_of_property(
    p: &Property,
    records: &Vec<Record>,
    defs: &Vec<GridPropertyDefinition>,
) -> (v: Vec<Option<String>>)
    ensures
        opt_strings_seq_view(v@) == joined_data_types(p@, views(records@), views(defs@)),
{
    let ghost t = views(records@);
    let ghost pred = joined_records(p@);
    let ghost g = |r: RecordView| data_types_through(p@, r, views(defs@));
    let mut v: Vec<Option<String>> = Vec::new();
    let mut found = false;
    let mut i: usize = 0;
    while i < records.len()
        invariant
            i <= t.len(),
            t == views(records@),
            pred == joined_records(p@),
            g == (|r: RecordView| data_types_through(p@, r, views(defs@))),
            found == (t.take(i as int).filter(pred).len() > 0),
            opt_strings_seq_view(v@) == t.take(i as int).filter(pred).map_values(g).flatten(),
        decreases t.len() - i,
    {
        let r = &records[i];
        let keep = string_eq(&r.record_id, &p.record_id) && r.end_commit_num == p.end_commit_num;
        proof {
            t.take(i as int).lemma_filter_push(t[i as int], pred);
            assert(t.take(i + 1) =~= t.take(i as int).push(t[i as int]));
        }
        if keep {
            let ghost before = v@;
            let mut part = data_types_through_record(p, r, defs);
            let ghost part_view = opt_strings_seq_view(part@);
            v.append(&mut part);
            proof {
                let prefix = t.take(i as int).filter(pred);
                assert(prefix.push(t[i as int]).map_values(g) =~= prefix.map_values(g).push(g(t[i as int])));
                prefix.map_values(g).lemma_flatten_push(g(t[i as int]));
                assert(opt_strings_seq_view(v@) =~= opt_strings_seq_view(before) + part_view);
            }
            found = true;
        }
        i = i + 1;
    }
    assert(t.take(t.len() as int) =~= t);
    if !found {
        let none: Option<String> = None;
        let w = vec![none];
        assert(opt_strings_seq_view(w@) =~= seq![None]);
        w
    } else {
        v
    }
}

/// Appends to `rows` the rows that the property `p` yields.
fn push_rows_of_property(
    rows: &mut Vec<(Property, Option<String>)>,
    p: &Property,
    records: &Vec<Record>,
    defs: &Vec<GridPropertyDefinition>,
)
    ensures
        typed_rows_view(final(rows)@) == typed_rows_view(old(rows)@) + rows_of_property(
            p@,
            views(records@),
            views(defs@),
        ),
{
    let types = data_types_of_property(p, records, defs);
    let ghost dts = joined_data_types(p@, views(records@), views(defs@));
    let ghost start = typed_rows_view(rows@);
    let ghost h = |dt: Option<Seq<char>>| (p@, dt);
    let mut k: usize = 0;
    while k < types.len()
        invariant
            k <= types@.len(),
            opt_strings_seq_view(types@) == dts,
            dts == joined_data_types(p@, views(records@), views(defs@)),
            h == (|dt: Option<Seq<char>>| (p@, dt)),
            start == typed_rows_view(old(rows)@),
            typed_rows_view(rows@) == start + dts.take(k as int).map_values(h),
        decreases types.len() - k,
    {
        let ghost before = rows@;
        let dt = match &types[k] {
            Some(x) => Some(x.clone()),
            None => None,
        };
        assert(opt_string_view(dt) == dts[k as int]);
        rows.push((p.clone(), dt));
        assert(typed_rows_view(rows@) =~= typed_rows_view(before).push(h(dts[k as int])));
        assert(dts.take(k + 1).map_values(h) =~= dts.take(k as int).map_values(h).push(h(dts[k as int])));
        k = k + 1;
    }
    assert(dts.take(dts.len() as int) =~= dts);
}

/// The current properties of the records `record_ids` that belong to the
/// service `service_id`, or to no service where it is `None`, each paired
/// with the data type that its definition gives through its record's
/// schema: one row per joined record and definition, with `None` where no
/// record or no definition joins.
pub fn list_properties_with_data_type(
    store: &TrackAndTraceStore,
    record_ids: &[String],
    service_id: Option<&str>,
) -> (r: Vec<(Property, Option<String>)>)
    ensures
        typed_rows_view(r@) == properties_with_data_types(
            store@.properties.filter(listing(strings_view(record_ids@), opt_str_view(service_id))),
            store@.records,
            store@.property_definitions,
        ),
{
    let listed = list_current_versions(&store.properties, record_ids, &listing_scope(service_id));
    let ghost ps = views(listed@);
    let ghost g = |p: PropertyView| rows_of_property(p, store@.records, store@.property_definitions);
    let mut rows: Vec<(Property, Option<String>)> = Vec::new();
    let mut i: usize = 0;
    while i < listed.len()
        invariant
            i <= ps.len(),
            ps == views(listed@),
            g == (|p: PropertyView| rows_of_property(p, store@.records, store@.property_definitions)),
            typed_rows_view(rows@) == ps.take(i as int).map_values(g).flatten(),
        decreases ps.len() - i,
    {
        push_rows_of_property(&mut rows, &listed[i], &store.records, &store.property_definitions);
        proof {
            assert(ps.take(i + 1).map_values(g) =~= ps.take(i as int).map_values(g).push(g(ps[i as int])));
            ps.take(i as int).map_values(g).lemma_flatten_push(g(ps[i as int]));
        }
        i = i + 1;
    }
    assert(ps.take(ps.len() as int) =~= ps);
    rows
}

proof fn lemma_flatten_first<A>(s: Seq<Seq<A>>)
    requires
        s.len() > 0,
        s[0].len() > 0,
    ensures
        s.flatten().len() > 0,
        s.flatten()[0] == s[0][0],
{
    assert(s.flatten() == s.first() + s.drop_first().flatten());
}

proof fn lemma_joined_data_types_nonempty(
    p: PropertyView,
    records: Seq<RecordView>,
    defs: Seq<GridPropertyDefinitionView>,
)
    ensures
        joined_data_types(p, records, defs).len() > 0,
{
    let rs = records.filter(joined_records(p));
    if rs.len() > 0 {
        let g = |r: RecordView| data_types_through(p, r, defs);
        let m = rs.map_values(g);
        assert(m[0] == data_types_through(p, rs[0], defs));
        lemma_flatten_first(m);
    }
}

/// The rows that `props` yield begin with the first row of the first property.
pub proof fn lemma_first_property_row(
    props: Seq<PropertyView>,
    records: Seq<RecordView>,
    defs: Seq<GridPropertyDefinitionView>,
)
    requires
        props.len() > 0,
    ensures
        first_of(properties_with_data_types(props, records, defs)) == Some(
            (props[0], joined_data_types(props[0], records, defs)[0]),
        ),
{
    let g = |p: PropertyView| rows_of_property(p, records, defs);
    let m = props.map_values(g);
    lemma_joined_data_types_nonempty(props[0], records, defs);
    assert(m[0] == rows_of_property(props[0], records, defs));
    lemma_flatten_first(m);
}

/// Whether `p` is the current version of the record's property named
/// `property_name` that belongs to the service `service_id`, or to no
/// service where it is `None`.
pub open spec fn is_fetched_property(
    p: PropertyView,
    record_id: Seq<char>,
    property_name: Seq<char>,
    service_id: Option<Seq<char>>,
) -> bool {
    &&& p.name == property_name
    &&& p.record_id == record_id
    &&& p.end_commit_num == MAX_COMMIT_NUM
    &&& p.service_id == service_id
}

/// The predicate of the properties that a fetch by record, name and service reads.
pub open spec fn fetched_property(
    record_id: Seq<char>,
    property_name: Seq<char>,
    service_id: Option<Seq<char>>,
) -> spec_fn(PropertyView) -> bool {
    |p: PropertyView| is_fetched_property(p, record_id, property_name, service_id)
}

/// The view of an optional property paired with an optional data type.
pub open spec fn opt_typed_row_view(o: Option<(Property, Option<String>)>) -> Option<
    (PropertyView, Option<Seq<char>>),
> {
    match o {
        Some(x) => Some((x.0@, opt_string_view(x.1))),
        None => None,
    }
}

/// The first row of the join of the record's current property named
/// `property_name`, of the service `service_id` (or of no service where it
/// is `None`), with its data type; `None` where there is no such property.
pub fn fetch_property_with_data_type(
    store: &TrackAndTraceStore,
    record_id: &str,
    property_name: &str,
    service_id: Option<&str>,
) -> (r: Option<(Property, Option<String>)>)
    ensures
        opt_typed_row_view(r) == first_of(
            properties_with_data_types(
                store@.properties.filter(fetched_property(record_id@, property_name@, opt_str_view(service_id))),
                store@.records,
                store@.property_definitions,
            ),
        ),
{
    let rid = owned(record_id);
    let name = owned(property_name);
    let scope = listing_scope(service_id);
    let ghost pred = fetched_property(record_id@, property_name@, opt_str_view(service_id));
    let ghost t = store@.properties;
    let mut i: usize = 0;
    while i < store.properties.len()
        invariant
            i <= t.len(),
            t == store@.properties,
            rid@ == record_id@,
            name@ == property_name@,
            listing_service(scope) == opt_str_view(service_id),
            pred == fetched_property(record_id@, property_name@, opt_str_view(service_id)),
            t.take(i as int).filter(pred).len() == 0,
        decreases t.len() - i,
    {
        let p = &store.properties[i];
        if string_eq(&p.name, &name) && string_eq(&p.record_id, &rid) && p.end_commit_num == MAX_COMMIT_NUM
            && scope.admits(&p.service_id) {
            let types = data_types_of_property(p, &store.records, &store.property_definitions);
            proof {
                lemma_filter_first(t, pred, i as int);
                lemma_joined_data_types_nonempty(p@, store@.records, store@.property_definitions);
                let fs = t.filter(pred);
                assert(fs[0] == t[i as int]);
                lemma_first_property_row(fs, store@.records, store@.property_definitions);
            }
            let dt = match &types[0] {
                Some(x) => Some(x.clone()),
                None => None,
            };
            return Some((p.clone(), dt));
        }
        proof {
            lemma_filter_none_further(t, pred, i as int);
        }
        i = i + 1;
    }
    assert(t.take(t.len() as int) =~= t);
    None
}

/// After a current version of a record, starting at a bounded commit, is
/// written where every current version of that record belongs to a service
/// that the new version's service filter admits (always so for a version of
/// no service), fetching the record gives the written version.
pub proof fn lemma_written_record_is_fetched(records: Seq<RecordView>, record: RecordView)
    requires
        record.end_commit_num == MAX_COMMIT_NUM,
        record.start_commit_num != MAX_COMMIT_NUM,
        forall|i: int|
            0 <= i < records.len() && (#[trigger] records[i]).end_commit_num == MAX_COMMIT_NUM
                && records[i].record_id == record.record_id ==> service_filter_admits(
                records[i].service_id,
                record.service_id,
            ),
    ensures
        first_of(insert_versions(records, seq![record]).filter(current_record(record.record_id)))
            == Some(record),
{
    let pred = current_record(record.record_id);
    let closed = close_versions(records, record.version_key(), record.service(), record.started_at());
    lemma_insert_single(records, record);
    assert forall|i: int| 0 <= i < closed.len() implies !pred(#[trigger] closed[i]) by {
        records[i].lemma_closed_at(record.start_commit_num);
        if records[i].end_commit_num == MAX_COMMIT_NUM && records[i].record_id == record.record_id {
            assert(records[i].version_key() =~= record.version_key());
        }
    }
    lemma_filter_none(closed, pred);
    lemma_single_filter(record, pred);
    Seq::filter_distributes_over_add(closed, seq![record], pred);
    assert(closed.filter(pred) + seq![record].filter(pred) =~= seq![record]);
}

/// Reading reported values without a commit height reads those that end at
/// the open-ended commit, as reading at that height does.
pub proof fn lemma_default_commit_height(record_id: Seq<char>, property_name: Seq<char>)
    ensures
        value_ending_at(record_id, property_name, commit_height_or_current(None))
            == value_ending_at(record_id, property_name, commit_height_or_current(Some(MAX_COMMIT_NUM))),
{
}

/// The predicate of the properties named `property_name`.
pub open spec fn property_named(property_name: Seq<char>) -> spec_fn(PropertyView) -> bool {
    |p: PropertyView| p.name == property_name
}

/// The predicate of the joined rows whose property is named `property_name`.
pub open spec fn row_named(property_name: Seq<char>) -> spec_fn((PropertyView, Option<Seq<char>>)) -> bool {
    |row: (PropertyView, Option<Seq<char>>)| row.0.name == property_name
}

proof fn lemma_rows_of_property_named(
    p: PropertyView,
    records: Seq<RecordView>,
    defs: Seq<GridPropertyDefinitionView>,
    property_name: Seq<char>,
)
    ensures
        rows_of_property(p, records, defs).filter(row_named(property_name)) == if p.name == property_name {
            rows_of_property(p, records, defs)
        } else {
            Seq::<(PropertyView, Option<Seq<char>>)>::empty()
        },
{
    let rows = rows_of_property(p, records, defs);
    let q = row_named(property_name);
    if p.name == property_name {
        assert forall|i: int| 0 <= i < rows.len() implies q(#[trigger] rows[i]) by {}
        lemma_filter_all(rows, q);
    } else {
        assert forall|i: int| 0 <= i < rows.len() implies !q(#[trigger] rows[i]) by {}
        lemma_filter_none(rows, q);
    }
}

proof fn lemma_rows_named(
    props: Seq<PropertyView>,
    records: Seq<RecordView>,
    defs: Seq<GridPropertyDefinitionView>,
    property_name: Seq<char>,
)
    ensures
        properties_with_data_types(props, records, defs).filter(row_named(property_name))
            == properties_with_data_types(props.filter(property_named(property_name)), records, defs),
    decreases props.len(),
{
    let q = row_named(property_name);
    let named = property_named(property_name);
    let g = |p: PropertyView| rows_of_property(p, records, defs);
    if props.len() == 0 {
        reveal(Seq::filter);
        assert(props.map_values(g) =~= Seq::<Seq<(PropertyView, Option<Seq<char>>)>>::empty());
        assert(props.filter(named) =~= props);
        lemma_filter_none(properties_with_data_types(props, records, defs), q);
    } else {
        let rest = props.drop_last();
        let x = props.last();
        lemma_rows_named(rest, records, defs, property_name);
        assert(props =~= rest.push(x));
        assert(props.map_values(g) =~= rest.map_values(g).push(g(x)));
        rest.map_values(g).lemma_flatten_push(g(x));
        Seq::filter_distributes_over_add(rest.map_values(g).flatten(), g(x), q);
        lemma_rows_of_property_named(x, records, defs, property_name);
        rest.lemma_filter_push(x, named);
        let kept = rest.filter(named);
        if x.name == property_name {
            assert(kept.push(x).map_values(g) =~= kept.map_values(g).push(g(x)));
            kept.map_values(g).lemma_flatten_push(g(x));
        } else {
            assert(rest.map_values(g).flatten().filter(q) + Seq::<(PropertyView, Option<Seq<char>>)>::empty()
                =~= rest.map_values(g).flatten().filter(q));
        }
    }
}

/// Fetching a record's property by name and service gives the rows that
/// listing the record's properties for that service gives for that name:
/// so the fetched row is the first of those.
pub proof fn lemma_fetched_property_is_first_listed(
    props: Seq<PropertyView>,
    records: Seq<RecordView>,
    defs: Seq<GridPropertyDefinitionView>,
    record_id: Seq<char>,
    property_name: Seq<char>,
    service_id: Option<Seq<char>>,
)
    ensures
        properties_with_data_types(props.filter(listing(seq![record_id], service_id)), records, defs).filter(
            row_named(property_name),
        ) == properties_with_data_types(
            props.filter(fetched_property(record_id, property_name, service_id)),
            records,
            defs,
        ),
{
    let listed = listing::<PropertyView>(seq![record_id], service_id);
    let named = property_named(property_name);
    let fetched = fetched_property(record_id, property_name, service_id);
    assert forall|x: PropertyView| #[trigger] fetched(x) == (listed(x) && named(x)) by {
        if x.record_id == record_id {
            assert(seq![record_id][0] == record_id);
        }
    }
    lemma_filter_filter(props, listed, named, fetched);
    lemma_rows_named(props.filter(listed), records, defs, property_name);
}

/// A flattened sequence holds `x` exactly when one of its parts does.
pub proof fn lemma_flatten_contains<A>(s: Seq<Seq<A>>, x: A)
    ensures
        s.flatten().contains(x) <==> exists|i: int| 0 <= i < s.len() && #[trigger] s[i].contains(x),
    decreases s.len(),
{
    if s.len() == 0 {
        assert(s.flatten() =~= Seq::<A>::empty());
    } else {
        let rest = s.drop_last();
        lemma_flatten_contains(rest, x);
        assert(rest.push(s.last()) =~= s);
        rest.lemma_flatten_push(s.last());
        vstd::seq_lib::lemma_seq_concat_contains_all_elements(rest.flatten(), s.last(), x);
        if exists|i: int| 0 <= i < s.len() && #[trigger] s[i].contains(x) {
            let i = choose|i: int| 0 <= i < s.len() && #[trigger] s[i].contains(x);
            if i < s.len() - 1 {
                assert(rest[i] == s[i]);
            }
        }
        if exists|i: int| 0 <= i < rest.len() && #[trigger] rest[i].contains(x) {
            let i = choose|i: int| 0 <= i < rest.len() && #[trigger] rest[i].contains(x);
            assert(s[i] == rest[i]);
        }
    }
}

/// Listing the properties of more records lists every row that listing
/// fewer lists: where each of the ids `fewer` is among the ids `more`, every
/// row (a property with one of its data types) that the listing of `fewer`
/// gives, the listing of `more` gives too, for the same service and tables.
pub proof fn lemma_listing_more_records_keeps_rows(
    props: Seq<PropertyView>,
    records: Seq<RecordView>,
    defs: Seq<GridPropertyDefinitionView>,
    fewer: Seq<Seq<char>>,
    more: Seq<Seq<char>>,
    service_id: Option<Seq<char>>,
)
    requires
        forall|id: Seq<char>| fewer.contains(id) ==> more.contains(id),
    ensures
        forall|row: (PropertyView, Option<Seq<char>>)|
            properties_with_data_types(props.filter(listing(fewer, service_id)), records, defs).contains(row)
                ==> #[trigger] properties_with_data_types(
                props.filter(listing(more, service_id)),
                records,
                defs,
            ).contains(row),
{
    let pa = listing::<PropertyView>(fewer, service_id);
    let pb = listing::<PropertyView>(more, service_id);
    let g = |p: PropertyView| rows_of_property(p, records, defs);
    let sa = props.filter(pa);
    let sb = props.filter(pb);
    assert forall|row: (PropertyView, Option<Seq<char>>)|
        properties_with_data_types(sa, records, defs).contains(row) implies #[trigger] properties_with_data_types(
        sb,
        records,
        defs,
    ).contains(row) by {
        let ma = sa.map_values(g);
        let mb = sb.map_values(g);
        lemma_flatten_contains(ma, row);
        lemma_flatten_contains(mb, row);
        let i = choose|i: int| 0 <= i < ma.len() && #[trigger] ma[i].contains(row);
        let p = sa[i];
        assert(sa.contains(p));
        props.lemma_filter_contains_rev(pa, p);
        broadcast use vstd::seq_lib::group_filter_ensures;
        assert(pa(p));
        assert(pb(p));
        let j = choose|j: int| 0 <= j < props.len() && props[j] == p;
        props.lemma_filter_contains(pb, j);
        let k = choose|k: int| 0 <= k < sb.len() && sb[k] == p;
        assert(mb[k] == g(p));
        assert(ma[i] == g(p));
    }
}

/// Listing the properties of no record gives no row, whatever the tables hold.
pub proof fn lemma_listing_no_records(
    props: Seq<PropertyView>,
    records: Seq<RecordView>,
    defs: Seq<GridPropertyDefinitionView>,
    service_id: Option<Seq<char>>,
)
    ensures
        properties_with_data_types(props.filter(listing(Seq::<Seq<char>>::empty(), service_id)), records, defs)
            == Seq::<(PropertyView, Option<Seq<char>>)>::empty(),
{
    let p = listing::<PropertyView>(Seq::<Seq<char>>::empty(), service_id);
    assert forall|i: int| 0 <= i < props.len() implies !p(#[trigger] props[i]) by {}
    lemma_filter_none(props, p);
    let g = |q: PropertyView| rows_of_property(q, records, defs);
    assert(props.filter(p).map_values(g) =~= Seq::<Seq<(PropertyView, Option<Seq<char>>)>>::empty());
    assert(props.filter(p).map_values(g).flatten() =~= Seq::<(PropertyView, Option<Seq<char>>)>::empty());
}

} // verus!
