//! What the store's operations do, stated over the rows' own columns: which
//! rows ending versions changes and how, what writing a version does to the
//! table, which rows a listing or a fetch gives, and which rows the join of
//! properties with their data types gives.
use vstd::prelude::*;

use crate::models::{
    AssociatedAgentView, GridPropertyDefinitionView, PropertyView, ProposalView, RecordView,
    ReportedValueReporterToAgentMetadataView,
    ReportedValueView, ReporterView,
};
use crate::track_and_trace::{
    commit_height_or_current, current_record, current_reporter, data_types_through, fetched_property,
    joined_data_types, joined_definitions, joined_records, lemma_first_property_row,
    lemma_flatten_contains, properties_with_data_types, rows_of_property, value_ending_at, value_of,
};
use crate::versioned::{
    close_versions, first_of, insert_versions, lemma_filter_contains_iff, lemma_first_of_filter,
    lemma_insert_single, listed_versions, listing, listing_for_service, VersionView,
};
use crate::MAX_COMMIT_NUM;

verus! {

/// Ending the current versions of an agent's role on a record at `commit_num` changes a
/// row exactly when its record_id, role and agent_id are the given ones, it is current
/// (its end commit is `MAX_COMMIT_NUM`) and it belongs to `service_id` (to any service
/// where that is `None`); such a row gets `commit_num` as its end commit and keeps every
/// other column. The table keeps its length and order.
pub proof fn lemma_associated_agent_versions_ended(
    table: Seq<AssociatedAgentView>,
    record_id: Seq<char>,
    role: Seq<char>,
    agent_id: Seq<char>,
    service_id: Option<Seq<char>>,
    commit_num: i64,
)
    ensures
        close_versions(table, seq![record_id, role, agent_id], service_id, commit_num).len() == table.len(),
        forall|i: int|
            #![trigger table[i]]
            0 <= i < table.len() ==> {
                let row = table[i];
                close_versions(table, seq![record_id, role, agent_id], service_id, commit_num)[i]
                    == if row.record_id == record_id
                        && row.role == role
                        && row.agent_id == agent_id
                        && row.end_commit_num == MAX_COMMIT_NUM
                        && (service_id is None || row.service_id == service_id) {
                    AssociatedAgentView { end_commit_num: commit_num, ..row }
                } else {
                    row
                }
            },
{
    let k = seq![record_id, role, agent_id];
    assert forall|i: int| #![trigger table[i]] 0 <= i < table.len() implies table[i].version_key() == k
        <==> (table[i].record_id == record_id
            && table[i].role == role
            && table[i].agent_id == agent_id) by {
        let vk = table[i].version_key();
        if vk == k {
            assert(vk[0] == k[0]);
            assert(vk[1] == k[1]);
            assert(vk[2] == k[2]);
        }
        if table[i].record_id == record_id
            && table[i].role == role
            && table[i].agent_id == agent_id {
            assert(vk =~= k);
        }
    }
}

/// Writing one version `row` of an agent's role on a record: every current row of the
/// same record_id, role and agent_id that belongs to the row's service (to any service
/// where the row has none) gets the row's start commit as its end commit and keeps every
/// other column; every other row stays as it was; `row` follows them.
pub proof fn lemma_associated_agent_written(table: Seq<AssociatedAgentView>, row: AssociatedAgentView)
    ensures
        insert_versions(table, seq![row]).len() == table.len() + 1,
        insert_versions(table, seq![row])[table.len() as int] == row,
        forall|i: int|
            #![trigger table[i]]
            0 <= i < table.len() ==> {
                let prior = table[i];
                insert_versions(table, seq![row])[i]
                    == if prior.record_id == row.record_id
                        && prior.role == row.role
                        && prior.agent_id == row.agent_id
                        && prior.end_commit_num == MAX_COMMIT_NUM
                        && (row.service_id is None || prior.service_id == row.service_id) {
                    AssociatedAgentView { end_commit_num: row.start_commit_num, ..prior }
                } else {
                    prior
                }
            },
{
    lemma_insert_single(table, row);
    lemma_associated_agent_versions_ended(
        table,
        row.record_id,
        row.role,
        row.agent_id,
        row.service_id,
        row.start_commit_num,
    );
    let after = insert_versions(table, seq![row]);
    let closed = close_versions(
        table,
        seq![row.record_id, row.role, row.agent_id],
        row.service_id,
        row.start_commit_num,
    );
    assert(row.version_key() == seq![row.record_id, row.role, row.agent_id]);
    assert(after == closed + seq![row]);
    assert forall|i: int| #![trigger table[i]] 0 <= i < table.len() implies after[i] == closed[i] by {}
}

/// Ending the current versions of a property at `commit_num` changes a row exactly when
/// its name and record_id are the given ones, it is current (its end commit is
/// `MAX_COMMIT_NUM`) and it belongs to `service_id` (to any service where that is
/// `None`); such a row gets `commit_num` as its end commit and keeps every other column.
/// The table keeps its length and order.
pub proof fn lemma_property_versions_ended(
    table: Seq<PropertyView>,
    name: Seq<char>,
    record_id: Seq<char>,
    service_id: Option<Seq<char>>,
    commit_num: i64,
)
    ensures
        close_versions(table, seq![name, record_id], service_id, commit_num).len() == table.len(),
        forall|i: int|
            #![trigger table[i]]
            0 <= i < table.len() ==> {
                let row = table[i];
                close_versions(table, seq![name, record_id], service_id, commit_num)[i]
                    == if row.name == name
                        && row.record_id == record_id
                        && row.end_commit_num == MAX_COMMIT_NUM
                        && (service_id is None || row.service_id == service_id) {
                    PropertyView { end_commit_num: commit_num, ..row }
                } else {
                    row
                }
            },
{
    let k = seq![name, record_id];
    assert forall|i: int| #![trigger table[i]] 0 <= i < table.len() implies table[i].version_key() == k
        <==> (table[i].name == name && table[i].record_id == record_id) by {
        let vk = table[i].version_key();
        if vk == k {
            assert(vk[0] == k[0]);
            assert(vk[1] == k[1]);
        }
        if table[i].name == name && table[i].record_id == record_id {
            assert(vk =~= k);
        }
    }
}

/// Writing one version `row` of a property: every current row of the same name and
/// record_id that belongs to the row's service (to any service where the row has none)
/// gets the row's start commit as its end commit and keeps every other column; every
/// other row stays as it was; `row` follows them.
pub proof fn lemma_property_written(table: Seq<PropertyView>, row: PropertyView)
    ensures
        insert_versions(table, seq![row]).len() == table.len() + 1,
        insert_versions(table, seq![row])[table.len() as int] == row,
        forall|i: int|
            #![trigger table[i]]
            0 <= i < table.len() ==> {
                let prior = table[i];
                insert_versions(table, seq![row])[i]
                    == if prior.name == row.name
                        && prior.record_id == row.record_id
                        && prior.end_commit_num == MAX_COMMIT_NUM
                        && (row.service_id is None || prior.service_id == row.service_id) {
                    PropertyView { end_commit_num: row.start_commit_num, ..prior }
                } else {
                    prior
                }
            },
{
    lemma_insert_single(table, row);
    lemma_property_versions_ended(
        table,
        row.name,
        row.record_id,
        row.service_id,
        row.start_commit_num,
    );
    let after = insert_versions(table, seq![row]);
    let closed = close_versions(
        table,
        seq![row.name, row.record_id],
        row.service_id,
        row.start_commit_num,
    );
    assert(row.version_key() == seq![row.name, row.record_id]);
    assert(after == closed + seq![row]);
    assert forall|i: int| #![trigger table[i]] 0 <= i < table.len() implies after[i] == closed[i] by {}
}

/// Ending the current versions of a proposal at `commit_num` changes a row exactly when
/// its record_id, receiving_agent and role are the given ones, it is current (its end
/// commit is `MAX_COMMIT_NUM`) and it belongs to `service_id` (to any service where that
/// is `None`); such a row gets `commit_num` as its end commit and keeps every other
/// column. The table keeps its length and order.
pub proof fn lemma_proposal_versions_ended(
    table: Seq<ProposalView>,
    record_id: Seq<char>,
    receiving_agent: Seq<char>,
    role: Seq<char>,
    service_id: Option<Seq<char>>,
    commit_num: i64,
)
    ensures
        close_versions(table, seq![record_id, receiving_agent, role], service_id, commit_num).len() == table.len(),
        forall|i: int|
            #![trigger table[i]]
            0 <= i < table.len() ==> {
                let row = table[i];
                close_versions(table, seq![record_id, receiving_agent, role], service_id, commit_num)[i]
                    == if row.record_id == record_id
                        && row.receiving_agent == receiving_agent
                        && row.role == role
                        && row.end_commit_num == MAX_COMMIT_NUM
                        && (service_id is None || row.service_id == service_id) {
                    ProposalView { end_commit_num: commit_num, ..row }
                } else {
                    row
                }
            },
{
    let k = seq![record_id, receiving_agent, role];
    assert forall|i: int| #![trigger table[i]] 0 <= i < table.len() implies table[i].version_key() == k
        <==> (table[i].record_id == record_id
            && table[i].receiving_agent == receiving_agent
            && table[i].role == role) by {
        let vk = table[i].version_key();
        if vk == k {
            assert(vk[0] == k[0]);
            assert(vk[1] == k[1]);
            assert(vk[2] == k[2]);
        }
        if table[i].record_id == record_id
            && table[i].receiving_agent == receiving_agent
            && table[i].role == role {
            assert(vk =~= k);
        }
    }
}

/// Writing one version `row` of a proposal: every current row of the same record_id,
/// receiving_agent and role that belongs to the row's service (to any service where the
/// row has none) gets the row's start commit as its end commit and keeps every other
/// column; every other row stays as it was; `row` follows them.
pub proof fn lemma_proposal_written(table: Seq<ProposalView>, row: ProposalView)
    ensures
        insert_versions(table, seq![row]).len() == table.len() + 1,
        insert_versions(table, seq![row])[table.len() as int] == row,
        forall|i: int|
            #![trigger table[i]]
            0 <= i < table.len() ==> {
                let prior = table[i];
                insert_versions(table, seq![row])[i]
                    == if prior.record_id == row.record_id
                        && prior.receiving_agent == row.receiving_agent
                        && prior.role == row.role
                        && prior.end_commit_num == MAX_COMMIT_NUM
                        && (row.service_id is None || prior.service_id == row.service_id) {
                    ProposalView { end_commit_num: row.start_commit_num, ..prior }
                } else {
                    prior
                }
            },
{
    lemma_insert_single(table, row);
    lemma_proposal_versions_ended(
        table,
        row.record_id,
        row.receiving_agent,
        row.role,
        row.service_id,
        row.start_commit_num,
    );
    let after = insert_versions(table, seq![row]);
    let closed = close_versions(
        table,
        seq![row.record_id, row.receiving_agent, row.role],
        row.service_id,
        row.start_commit_num,
    );
    assert(row.version_key() == seq![row.record_id, row.receiving_agent, row.role]);
    assert(after == closed + seq![row]);
    assert forall|i: int| #![trigger table[i]] 0 <= i < table.len() implies after[i] == closed[i] by {}
}

/// Ending the current versions of a record at `commit_num` changes a row exactly when its
/// record_id are the given ones, it is current (its end commit is `MAX_COMMIT_NUM`) and
/// it belongs to `service_id` (to any service where that is `None`); such a row gets
/// `commit_num` as its end commit and keeps every other column. The table keeps its
/// length and order.
pub proof fn lemma_record_versions_ended(
    table: Seq<RecordView>,
    record_id: Seq<char>,
    service_id: Option<Seq<char>>,
    commit_num: i64,
)
    ensures
        close_versions(table, seq![record_id], service_id, commit_num).len() == table.len(),
        forall|i: int|
            #![trigger table[i]]
            0 <= i < table.len() ==> {
                let row = table[i];
                close_versions(table, seq![record_id], service_id, commit_num)[i]
                    == if row.record_id == record_id
                        && row.end_commit_num == MAX_COMMIT_NUM
                        && (service_id is None || row.service_id == service_id) {
                    RecordView { end_commit_num: commit_num, ..row }
                } else {
                    row
                }
            },
{
    let k = seq![record_id];
    assert forall|i: int| #![trigger table[i]] 0 <= i < table.len() implies table[i].version_key() == k
        <==> (table[i].record_id == record_id) by {
        let vk = table[i].version_key();
        if vk == k {
            assert(vk[0] == k[0]);
        }
        if table[i].record_id == record_id {
            assert(vk =~= k);
        }
    }
}

/// Writing one version `row` of a record: every current row of the same record_id that
/// belongs to the row's service (to any service where the row has none) gets the row's
/// start commit as its end commit and keeps every other column; every other row stays as
/// it was; `row` follows them.
pub proof fn lemma_record_written(table: Seq<RecordView>, row: RecordView)
    ensures
        insert_versions(table, seq![row]).len() == table.len() + 1,
        insert_versions(table, seq![row])[table.len() as int] == row,
        forall|i: int|
            #![trigger table[i]]
            0 <= i < table.len() ==> {
                let prior = table[i];
                insert_versions(table, seq![row])[i]
                    == if prior.record_id == row.record_id
                        && prior.end_commit_num == MAX_COMMIT_NUM
                        && (row.service_id is None || prior.service_id == row.service_id) {
                    RecordView { end_commit_num: row.start_commit_num, ..prior }
                } else {
                    prior
                }
            },
{
    lemma_insert_single(table, row);
    lemma_record_versions_ended(table, row.record_id, row.service_id, row.start_commit_num);
    let after = insert_versions(table, seq![row]);
    let closed = close_versions(table, seq![row.record_id], row.service_id, row.start_commit_num);
    assert(row.version_key() == seq![row.record_id]);
    assert(after == closed + seq![row]);
    assert forall|i: int| #![trigger table[i]] 0 <= i < table.len() implies after[i] == closed[i] by {}
}

/// Ending the current versions of a reported value at `commit_num` changes a row exactly
/// when its record_id and property_name are the given ones, it is current (its end commit
/// is `MAX_COMMIT_NUM`) and it belongs to `service_id` (to any service where that is
/// `None`); such a row gets `commit_num` as its end commit and keeps every other column.
/// The table keeps its length and order.
pub proof fn lemma_reported_value_versions_ended(
    table: Seq<ReportedValueView>,
    record_id: Seq<char>,
    property_name: Seq<char>,
    service_id: Option<Seq<char>>,
    commit_num: i64,
)
    ensures
        close_versions(table, seq![record_id, property_name], service_id, commit_num).len() == table.len(),
        forall|i: int|
            #![trigger table[i]]
            0 <= i < table.len() ==> {
                let row = table[i];
                close_versions(table, seq![record_id, property_name], service_id, commit_num)[i]
                    == if row.record_id == record_id
                        && row.property_name == property_name
                        && row.end_commit_num == MAX_COMMIT_NUM
                        && (service_id is None || row.service_id == service_id) {
                    ReportedValueView { end_commit_num: commit_num, ..row }
                } else {
                    row
                }
            },
{
    let k = seq![record_id, property_name];
    assert forall|i: int| #![trigger table[i]] 0 <= i < table.len() implies table[i].version_key() == k
        <==> (table[i].record_id == record_id
            && table[i].property_name == property_name) by {
        let vk = table[i].version_key();
        if vk == k {
            assert(vk[0] == k[0]);
            assert(vk[1] == k[1]);
        }
        if table[i].record_id == record_id && table[i].property_name == property_name {
            assert(vk =~= k);
        }
    }
}

/// Writing one version `row` of a reported value: every current row of the same record_id
/// and property_name that belongs to the row's service (to any service where the row has
/// none) gets the row's start commit as its end commit and keeps every other column;
/// every other row stays as it was; `row` follows them.
pub proof fn lemma_reported_value_written(table: Seq<ReportedValueView>, row: ReportedValueView)
    ensures
        insert_versions(table, seq![row]).len() == table.len() + 1,
        insert_versions(table, seq![row])[table.len() as int] == row,
        forall|i: int|
            #![trigger table[i]]
            0 <= i < table.len() ==> {
                let prior = table[i];
                insert_versions(table, seq![row])[i]
                    == if prior.record_id == row.record_id
                        && prior.property_name == row.property_name
                        && prior.end_commit_num == MAX_COMMIT_NUM
                        && (row.service_id is None || prior.service_id == row.service_id) {
                    ReportedValueView { end_commit_num: row.start_commit_num, ..prior }
                } else {
                    prior
                }
            },
{
    lemma_insert_single(table, row);
    lemma_reported_value_versions_ended(
        table,
        row.record_id,
        row.property_name,
        row.service_id,
        row.start_commit_num,
    );
    let after = insert_versions(table, seq![row]);
    let closed = close_versions(
        table,
        seq![row.record_id, row.property_name],
        row.service_id,
        row.start_commit_num,
    );
    assert(row.version_key() == seq![row.record_id, row.property_name]);
    assert(after == closed + seq![row]);
    assert forall|i: int| #![trigger table[i]] 0 <= i < table.len() implies after[i] == closed[i] by {}
}

/// Ending the current versions of a reporter at `commit_num` changes a row exactly when
/// its record_id, property_name and public_key are the given ones, it is current (its end
/// commit is `MAX_COMMIT_NUM`) and it belongs to `service_id` (to any service where that
/// is `None`); such a row gets `commit_num` as its end commit and keeps every other
/// column. The table keeps its length and order.
pub proof fn lemma_reporter_versions_ended(
    table: Seq<ReporterView>,
    record_id: Seq<char>,
    property_name: Seq<char>,
    public_key: Seq<char>,
    service_id: Option<Seq<char>>,
    commit_num: i64,
)
    ensures
        close_versions(table, seq![record_id, property_name, public_key], service_id, commit_num).len() == table.len(),
        forall|i: int|
            #![trigger table[i]]
            0 <= i < table.len() ==> {
                let row = table[i];
                close_versions(table, seq![record_id, property_name, public_key], service_id, commit_num)[i]
                    == if row.record_id == record_id
                        && row.property_name == property_name
                        && row.public_key == public_key
                        && row.end_commit_num == MAX_COMMIT_NUM
                        && (service_id is None || row.service_id == service_id) {
                    ReporterView { end_commit_num: commit_num, ..row }
                } else {
                    row
                }
            },
{
    let k = seq![record_id, property_name, public_key];
    assert forall|i: int| #![trigger table[i]] 0 <= i < table.len() implies table[i].version_key() == k
        <==> (table[i].record_id == record_id
            && table[i].property_name == property_name
            && table[i].public_key == public_key) by {
        let vk = table[i].version_key();
        if vk == k {
            assert(vk[0] == k[0]);
            assert(vk[1] == k[1]);
            assert(vk[2] == k[2]);
        }
        if table[i].record_id == record_id
            && table[i].property_name == property_name
            && table[i].public_key == public_key {
            assert(vk =~= k);
        }
    }
}

/// Writing one version `row` of a reporter: every current row of the same record_id,
/// property_name and public_key that belongs to the row's service (to any service where
/// the row has none) gets the row's start commit as its end commit and keeps every other
/// column; every other row stays as it was; `row` follows them.
pub proof fn lemma_reporter_written(table: Seq<ReporterView>, row: ReporterView)
    ensures
        insert_versions(table, seq![row]).len() == table.len() + 1,
        insert_versions(table, seq![row])[table.len() as int] == row,
        forall|i: int|
            #![trigger table[i]]
            0 <= i < table.len() ==> {
                let prior = table[i];
                insert_versions(table, seq![row])[i]
                    == if prior.record_id == row.record_id
                        && prior.property_name == row.property_name
                        && prior.public_key == row.public_key
                        && prior.end_commit_num == MAX_COMMIT_NUM
                        && (row.service_id is None || prior.service_id == row.service_id) {
                    ReporterView { end_commit_num: row.start_commit_num, ..prior }
                } else {
                    prior
                }
            },
{
    lemma_insert_single(table, row);
    lemma_reporter_versions_ended(
        table,
        row.record_id,
        row.property_name,
        row.public_key,
        row.service_id,
        row.start_commit_num,
    );
    let after = insert_versions(table, seq![row]);
    let closed = close_versions(
        table,
        seq![row.record_id, row.property_name, row.public_key],
        row.service_id,
        row.start_commit_num,
    );
    assert(row.version_key() == seq![row.record_id, row.property_name, row.public_key]);
    assert(after == closed + seq![row]);
    assert forall|i: int| #![trigger table[i]] 0 <= i < table.len() implies after[i] == closed[i] by {}
}

/// A listing of associated agents for the record ids `ids` and `service_id` holds a
/// row exactly when the table holds it, it is current, its record is one of
/// `ids`, and its service is `service_id` (no service where that is `None`).
pub proof fn lemma_associated_agents_listed(
    table: Seq<AssociatedAgentView>,
    ids: Seq<Seq<char>>,
    service_id: Option<Seq<char>>,
    row: AssociatedAgentView,
)
    ensures
        listed_versions(table, ids, service_id).contains(row) <==> table.contains(row) && row.end_commit_num
            == MAX_COMMIT_NUM && ids.contains(row.record_id) && row.service_id == service_id,
{
    lemma_filter_contains_iff(table, listing(ids, service_id), row);
}

/// A listing of proposals for the record ids `ids` and `service_id` holds a
/// row exactly when the table holds it, it is current, its record is one of
/// `ids`, and its service is `service_id` (no service where that is `None`).
pub proof fn lemma_proposals_listed(
    table: Seq<ProposalView>,
    ids: Seq<Seq<char>>,
    service_id: Option<Seq<char>>,
    row: ProposalView,
)
    ensures
        listed_versions(table, ids, service_id).contains(row) <==> table.contains(row) && row.end_commit_num
            == MAX_COMMIT_NUM && ids.contains(row.record_id) && row.service_id == service_id,
{
    lemma_filter_contains_iff(table, listing(ids, service_id), row);
}

/// A listing of records for `service_id` holds a row exactly when the table
/// holds it, it is current and its service is `service_id` (no service where
/// that is `None`).
pub proof fn lemma_records_listed(table: Seq<RecordView>, service_id: Option<Seq<char>>, row: RecordView)
    ensures
        table.filter(listing_for_service(service_id)).contains(row) <==> table.contains(row)
            && row.end_commit_num == MAX_COMMIT_NUM && row.service_id == service_id,
{
    lemma_filter_contains_iff(table, listing_for_service(service_id), row);
}

/// Fetching the record `record_id` gives the first row of the table whose
/// record is `record_id` and that is current, of whatever service; nothing
/// exactly when there is no such row.
pub proof fn lemma_record_fetched(table: Seq<RecordView>, record_id: Seq<char>)
    ensures
        first_of(table.filter(current_record(record_id))) is None <==> forall|j: int|
            0 <= j < table.len() ==> !(#[trigger] table[j].record_id == record_id && table[j].end_commit_num
                == MAX_COMMIT_NUM),
        first_of(table.filter(current_record(record_id))) matches Some(x) ==> exists|i: int|
            0 <= i < table.len() && table[i] == x && x.record_id == record_id && x.end_commit_num
                == MAX_COMMIT_NUM && forall|j: int|
                0 <= j < i ==> !(#[trigger] table[j].record_id == record_id && table[j].end_commit_num
                    == MAX_COMMIT_NUM),
{
    let p = current_record(record_id);
    lemma_first_of_filter(table, p);
    assert forall|j: int| 0 <= j < table.len() implies p(#[trigger] table[j]) == (table[j].record_id
        == record_id && table[j].end_commit_num == MAX_COMMIT_NUM) by {}
}

/// Listing the reporters of a record's property holds a reporter exactly
/// when the table holds it, its property and record are the given ones and
/// it is current.
pub proof fn lemma_reporters_listed(
    table: Seq<ReporterView>,
    record_id: Seq<char>,
    property_name: Seq<char>,
    row: ReporterView,
)
    ensures
        table.filter(current_reporter(record_id, property_name)).contains(row) <==> table.contains(row)
            && row.property_name == property_name && row.record_id == record_id && row.end_commit_num
            == MAX_COMMIT_NUM,
{
    lemma_filter_contains_iff(table, current_reporter(record_id, property_name), row);
}

/// Listing the values reported for a record's property holds a value exactly
/// when the table holds it and its property and record are the given ones.
pub proof fn lemma_reported_values_listed(
    table: Seq<ReportedValueReporterToAgentMetadataView>,
    record_id: Seq<char>,
    property_name: Seq<char>,
    row: ReportedValueReporterToAgentMetadataView,
)
    ensures
        table.filter(value_of(record_id, property_name)).contains(row) <==> table.contains(row)
            && row.property_name == property_name && row.record_id == record_id,
{
    lemma_filter_contains_iff(table, value_of(record_id, property_name), row);
}

/// Fetching the value reported for a record's property at a commit height
/// gives the first row of the table of that record and property whose
/// version ends at the height (at `MAX_COMMIT_NUM` where no height is given);
/// nothing exactly when there is no such row.
pub proof fn lemma_reported_value_fetched(
    table: Seq<ReportedValueReporterToAgentMetadataView>,
    record_id: Seq<char>,
    property_name: Seq<char>,
    commit_height: Option<i64>,
)
    ensures
        ({
            let end = match commit_height {
                Some(h) => h,
                None => MAX_COMMIT_NUM,
            };
            let fetched = first_of(
                table.filter(value_ending_at(record_id, property_name, commit_height_or_current(commit_height))),
            );
            &&& fetched is None <==> forall|j: int|
                0 <= j < table.len() ==> !(#[trigger] table[j].record_id == record_id && table[j].property_name
                    == property_name && table[j].reported_value_end_commit_num == end)
            &&& fetched matches Some(x) ==> exists|i: int|
                0 <= i < table.len() && table[i] == x && x.record_id == record_id && x.property_name
                    == property_name && x.reported_value_end_commit_num == end && forall|j: int|
                    0 <= j < i ==> !(#[trigger] table[j].record_id == record_id && table[j].property_name
                        == property_name && table[j].reported_value_end_commit_num == end)
        }),
{
    let end = commit_height_or_current(commit_height);
    let p = value_ending_at(record_id, property_name, end);
    lemma_first_of_filter(table, p);
    assert forall|j: int| 0 <= j < table.len() implies p(#[trigger] table[j]) == (table[j].record_id
        == record_id && table[j].property_name == property_name && table[j].reported_value_end_commit_num
        == end) by {}
}

proof fn lemma_map_contains<A, B>(s: Seq<A>, f: spec_fn(A) -> B, y: B)
    ensures
        s.map_values(f).contains(y) <==> exists|x: A| #[trigger] s.contains(x) && f(x) == y,
{
    if s.map_values(f).contains(y) {
        let k = choose|k: int| 0 <= k < s.map_values(f).len() && s.map_values(f)[k] == y;
        assert(s.contains(s[k]));
    }
    if exists|x: A| #[trigger] s.contains(x) && f(x) == y {
        let x = choose|x: A| #[trigger] s.contains(x) && f(x) == y;
        let j = choose|j: int| 0 <= j < s.len() && s[j] == x;
        assert(s.map_values(f)[j] == y);
    }
}

proof fn lemma_through_contains(
    p: PropertyView,
    r: RecordView,
    defs: Seq<GridPropertyDefinitionView>,
    dt: Option<Seq<char>>,
)
    ensures
        data_types_through(p, r, defs).contains(dt) <==> ((dt is None && forall|d: GridPropertyDefinitionView|
            #[trigger] defs.contains(d) ==> !joined_definitions(p, r)(d)) || exists|d: GridPropertyDefinitionView|
            #[trigger] defs.contains(d) && joined_definitions(p, r)(d) && dt == Some(d.data_type)),
{
    let jd = joined_definitions(p, r);
    let ds = defs.filter(jd);
    let f = |d: GridPropertyDefinitionView| Some(d.data_type);
    assert forall|d: GridPropertyDefinitionView| #[trigger] defs.contains(d) && jd(d) implies ds.contains(d) by {
        lemma_filter_contains_iff(defs, jd, d);
    }
    if ds.len() == 0 {
        assert(data_types_through(p, r, defs) == seq![None::<Seq<char>>]);
        if dt is None {
            assert(seq![None::<Seq<char>>][0] == dt);
        }
    } else {
        lemma_map_contains(ds, f, dt);
        assert(ds.contains(ds[0]));
        lemma_filter_contains_iff(defs, jd, ds[0]);
        if exists|d: GridPropertyDefinitionView| #[trigger] ds.contains(d) && f(d) == dt {
            let d = choose|d: GridPropertyDefinitionView| #[trigger] ds.contains(d) && f(d) == dt;
            lemma_filter_contains_iff(defs, jd, d);
        }
    }
}

proof fn lemma_joined_contains(
    p: PropertyView,
    records: Seq<RecordView>,
    defs: Seq<GridPropertyDefinitionView>,
    dt: Option<Seq<char>>,
)
    ensures
        joined_data_types(p, records, defs).contains(dt) <==> ((dt is None && forall|r: RecordView|
            #[trigger] records.contains(r) ==> !joined_records(p)(r)) || exists|r: RecordView|
            #[trigger] records.contains(r) && joined_records(p)(r) && data_types_through(p, r, defs).contains(dt)),
{
    let jr = joined_records(p);
    let rs = records.filter(jr);
    let g = |r: RecordView| data_types_through(p, r, defs);
    assert forall|r: RecordView| #[trigger] records.contains(r) && jr(r) implies rs.contains(r) by {
        lemma_filter_contains_iff(records, jr, r);
    }
    if rs.len() == 0 {
        assert(joined_data_types(p, records, defs) == seq![None::<Seq<char>>]);
        if dt is None {
            assert(seq![None::<Seq<char>>][0] == dt);
        }
    } else {
        let m = rs.map_values(g);
        lemma_flatten_contains(m, dt);
        assert(rs.contains(rs[0]));
        lemma_filter_contains_iff(records, jr, rs[0]);
        if exists|i: int| 0 <= i < m.len() && #[trigger] m[i].contains(dt) {
            let i = choose|i: int| 0 <= i < m.len() && #[trigger] m[i].contains(dt);
            assert(rs.contains(rs[i]));
            lemma_filter_contains_iff(records, jr, rs[i]);
            assert(g(rs[i]).contains(dt));
        }
        if exists|r: RecordView| #[trigger] records.contains(r) && jr(r) && g(r).contains(dt) {
            let r = choose|r: RecordView| #[trigger] records.contains(r) && jr(r) && g(r).contains(dt);
            let i = choose|i: int| 0 <= i < rs.len() && rs[i] == r;
            assert(m[i] == g(r));
        }
    }
}

proof fn lemma_rows_contain(
    props: Seq<PropertyView>,
    records: Seq<RecordView>,
    defs: Seq<GridPropertyDefinitionView>,
    q: PropertyView,
    dt: Option<Seq<char>>,
)
    ensures
        properties_with_data_types(props, records, defs).contains((q, dt)) <==> props.contains(q)
            && joined_data_types(q, records, defs).contains(dt),
{
    let g = |p: PropertyView| rows_of_property(p, records, defs);
    let m = props.map_values(g);
    lemma_flatten_contains(m, (q, dt));
    let h = |d: Option<Seq<char>>| (q, d);
    if exists|i: int| 0 <= i < m.len() && #[trigger] m[i].contains((q, dt)) {
        let i = choose|i: int| 0 <= i < m.len() && #[trigger] m[i].contains((q, dt));
        let p = props[i];
        let k = choose|k: int| 0 <= k < m[i].len() && m[i][k] == (q, dt);
        assert(m[i][k] == (p, joined_data_types(p, records, defs)[k]));
        assert(props.contains(p));
        assert(joined_data_types(q, records, defs).contains(dt));
    }
    if props.contains(q) && joined_data_types(q, records, defs).contains(dt) {
        let i = choose|i: int| 0 <= i < props.len() && props[i] == q;
        let k = choose|k: int| 0 <= k < joined_data_types(q, records, defs).len() && joined_data_types(
            q,
            records,
            defs,
        )[k] == dt;
        assert(m[i] == rows_of_property(q, records, defs));
        assert(m[i][k] == (q, dt));
        assert(m[i].contains((q, dt)));
    }
}

/// The rows that properties yield when joined with their data types: a
/// property `q` with the data type `t` is a row exactly when `q` is one of
/// the properties and some record row has `q`'s record id and end commit and
/// some definition has that record's schema, `q`'s name and the type `t`; `q`
/// with no data type is a row exactly when no record row has `q`'s record id
/// and end commit, or some such record row has no definition of its schema
/// and `q`'s name.
pub proof fn lemma_property_rows(
    props: Seq<PropertyView>,
    records: Seq<RecordView>,
    defs: Seq<GridPropertyDefinitionView>,
    q: PropertyView,
    dt: Option<Seq<char>>,
)
    ensures
        properties_with_data_types(props, records, defs).contains((q, dt)) <==> props.contains(q) && match dt {
            Some(t) => exists|r: RecordView, d: GridPropertyDefinitionView|
                #[trigger] records.contains(r) && #[trigger] defs.contains(d) && r.record_id == q.record_id
                    && r.end_commit_num == q.end_commit_num && d.schema_name == r.schema && d.name == q.name
                    && d.data_type == t,
            None => (forall|r: RecordView|
                #[trigger] records.contains(r) ==> !(r.record_id == q.record_id && r.end_commit_num
                    == q.end_commit_num)) || exists|r: RecordView|
                #[trigger] records.contains(r) && r.record_id == q.record_id && r.end_commit_num
                    == q.end_commit_num && forall|d: GridPropertyDefinitionView|
                    #[trigger] defs.contains(d) ==> !(d.schema_name == r.schema && d.name == q.name),
        },
{
    lemma_rows_contain(props, records, defs, q, dt);
    lemma_joined_contains(q, records, defs, dt);
    assert forall|r: RecordView| #[trigger] records.contains(r) implies data_types_through(q, r, defs).contains(dt)
        <==> ((dt is None && forall|d: GridPropertyDefinitionView|
        #[trigger] defs.contains(d) ==> !joined_definitions(q, r)(d)) || exists|d: GridPropertyDefinitionView|
        #[trigger] defs.contains(d) && joined_definitions(q, r)(d) && dt == Some(d.data_type)) by {
        lemma_through_contains(q, r, defs, dt);
    }
}

/// Fetching a record's property by name and service gives nothing exactly
/// when no property row has that name and record id, is current and belongs
/// to that service; otherwise it gives such a row `q` of the table, paired
/// with a data type `t` only where some record row has `q`'s record id and
/// end commit and some definition has that record's schema, `q`'s name and
/// the type `t`, and with no data type only where no record row has `q`'s
/// record id and end commit or some such record row has no definition of its
/// schema and `q`'s name.
pub proof fn lemma_property_fetched(
    props: Seq<PropertyView>,
    records: Seq<RecordView>,
    defs: Seq<GridPropertyDefinitionView>,
    record_id: Seq<char>,
    property_name: Seq<char>,
    service_id: Option<Seq<char>>,
)
    ensures
        first_of(
            properties_with_data_types(props.filter(fetched_property(record_id, property_name, service_id)), records, defs),
        ) is None <==> forall|j: int|
            0 <= j < props.len() ==> !(#[trigger] props[j].name == property_name && props[j].record_id == record_id
                && props[j].end_commit_num == MAX_COMMIT_NUM && props[j].service_id == service_id),
        first_of(
            properties_with_data_types(props.filter(fetched_property(record_id, property_name, service_id)), records, defs),
        ) matches Some((q, dt)) ==> {
            &&& q.name == property_name
            &&& q.record_id == record_id
            &&& q.end_commit_num == MAX_COMMIT_NUM
            &&& q.service_id == service_id
            &&& props.contains(q)
            &&& match dt {
                Some(t) => exists|r: RecordView, d: GridPropertyDefinitionView|
                    #[trigger] records.contains(r) && #[trigger] defs.contains(d) && r.record_id == q.record_id
                        && r.end_commit_num == q.end_commit_num && d.schema_name == r.schema && d.name == q.name
                        && d.data_type == t,
                None => (forall|r: RecordView|
                    #[trigger] records.contains(r) ==> !(r.record_id == q.record_id && r.end_commit_num
                        == q.end_commit_num)) || exists|r: RecordView|
                    #[trigger] records.contains(r) && r.record_id == q.record_id && r.end_commit_num
                        == q.end_commit_num && forall|d: GridPropertyDefinitionView|
                        #[trigger] defs.contains(d) ==> !(d.schema_name == r.schema && d.name == q.name),
            }
        },
{
    let pred = fetched_property(record_id, property_name, service_id);
    let fs = props.filter(pred);
    let rows = properties_with_data_types(fs, records, defs);
    lemma_first_of_filter(props, pred);
    assert forall|j: int| 0 <= j < props.len() implies pred(#[trigger] props[j]) == (props[j].name
        == property_name && props[j].record_id == record_id && props[j].end_commit_num == MAX_COMMIT_NUM
        && props[j].service_id == service_id) by {}
    if fs.len() == 0 {
        let g = |p: PropertyView| rows_of_property(p, records, defs);
        assert(fs.map_values(g) =~= Seq::<Seq<(PropertyView, Option<Seq<char>>)>>::empty());
        assert(fs.map_values(g).flatten() =~= Seq::<(PropertyView, Option<Seq<char>>)>::empty());
        assert(first_of(fs) is None);
    } else {
        lemma_first_property_row(fs, records, defs);
        assert(first_of(fs) is Some);
        let q = fs[0];
        let dt = joined_data_types(q, records, defs)[0];
        assert(rows.contains((q, dt))) by {
            assert(rows[0] == (q, dt));
        }
        lemma_property_rows(fs, records, defs, q, dt);
        lemma_filter_contains_iff(props, pred, q);
        assert(fs.contains(q));
    }
}

/// Listing the properties of the records `ids` for `service_id` with their
/// data types holds a row `(q, t)` exactly when the table holds `q`, `q` is
/// current, its record is one of `ids` and its service is `service_id` (no
/// service where that is `None`), and `t` is a data type that `q` takes
/// through its record's schema as `lemma_property_rows` states it.
pub proof fn lemma_properties_listed(
    props: Seq<PropertyView>,
    records: Seq<RecordView>,
    defs: Seq<GridPropertyDefinitionView>,
    ids: Seq<Seq<char>>,
    service_id: Option<Seq<char>>,
    q: PropertyView,
    dt: Option<Seq<char>>,
)
    ensures
        properties_with_data_types(props.filter(listing(ids, service_id)), records, defs).contains((q, dt)) <==> {
            &&& props.contains(q)
            &&& q.end_commit_num == MAX_COMMIT_NUM
            &&& ids.contains(q.record_id)
            &&& q.service_id == service_id
            &&& match dt {
                Some(t) => exists|r: RecordView, d: GridPropertyDefinitionView|
                    #[trigger] records.contains(r) && #[trigger] defs.contains(d) && r.record_id == q.record_id
                        && r.end_commit_num == q.end_commit_num && d.schema_name == r.schema && d.name == q.name
                        && d.data_type == t,
                None => (forall|r: RecordView|
                    #[trigger] records.contains(r) ==> !(r.record_id == q.record_id && r.end_commit_num
                        == q.end_commit_num)) || exists|r: RecordView|
                    #[trigger] records.contains(r) && r.record_id == q.record_id && r.end_commit_num
                        == q.end_commit_num && forall|d: GridPropertyDefinitionView|
                        #[trigger] defs.contains(d) ==> !(d.schema_name == r.schema && d.name == q.name),
            }
        },
{
    lemma_property_rows(props.filter(listing(ids, service_id)), records, defs, q, dt);
    lemma_filter_contains_iff(props, listing(ids, service_id), q);
}

} // verus!
