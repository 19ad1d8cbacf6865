//! The rows of the track-and-trace tables, with their views.
use vstd::prelude::*;

use crate::table::{string_eq, VersionedRow};
use crate::versioned::{opt_string_view, opt_strings_view, strings_view, VersionView};

verus! {

/// Copies a list of strings.
pub fn copy_strings(v: &Vec<String>) -> (r: Vec<String>)
    ensures
        r@ == v@,
{
    let mut r: Vec<String> = Vec::new();
    let mut i: usize = 0;
    while i < v.len()
        invariant
            i <= v.len(),
            r@ == v@.take(i as int),
        decreases v.len() - i,
    {
        r.push(v[i].clone());
        assert(r@ =~= v@.take(i + 1));
        i = i + 1;
    }
    assert(r@ =~= v@);
    r
}

/// Copies an optional string.
pub fn copy_opt_string(s: &Option<String>) -> (r: Option<String>)
    ensures
        r == *s,
{
    match s {
        Some(x) => Some(x.clone()),
        None => None,
    }
}

/// Copies an optional list of strings.
pub fn copy_opt_strings(v: &Option<Vec<String>>) -> (r: Option<Vec<String>>)
    ensures
        opt_strings_view(r) == opt_strings_view(*v),
{
    match v {
        Some(x) => Some(copy_strings(x)),
        None => None,
    }
}

/// An agent's role on a record, as one version.
#[derive(Debug, PartialEq, Eq)]
pub struct AssociatedAgent {
    pub record_id: String,
    pub role: String,
    pub agent_id: String,
    pub timestamp: i64,
    pub start_commit_num: i64,
    pub end_commit_num: i64,
    pub service_id: Option<String>,
}

/// The view of a [`AssociatedAgent`].
pub struct AssociatedAgentView {
    pub record_id: Seq<char>,
    pub role: Seq<char>,
    pub agent_id: Seq<char>,
    pub timestamp: i64,
    pub start_commit_num: i64,
    pub end_commit_num: i64,
    pub service_id: Option<Seq<char>>,
}

impl View for AssociatedAgent {
    type V = AssociatedAgentView;

    open spec fn view(&self) -> AssociatedAgentView {
        AssociatedAgentView {
            record_id: self.record_id@,
            role: self.role@,
            agent_id: self.agent_id@,
            timestamp: self.timestamp,
            start_commit_num: self.start_commit_num,
            end_commit_num: self.end_commit_num,
            service_id: opt_string_view(self.service_id),
        }
    }
}

impl Clone for AssociatedAgent {
    fn clone(&self) -> (r: Self)
        ensures
            r@ == self@,
    {
        AssociatedAgent {
            record_id: self.record_id.clone(),
            role: self.role.clone(),
            agent_id: self.agent_id.clone(),
            timestamp: self.timestamp,
            start_commit_num: self.start_commit_num,
            end_commit_num: self.end_commit_num,
            service_id: copy_opt_string(&self.service_id),
        }
    }
}

/// An associated agent as it is inserted.
pub type NewAssociatedAgent = AssociatedAgent;

impl VersionView for AssociatedAgentView {
    open spec fn version_key(&self) -> Seq<Seq<char>> {
        seq![self.record_id, self.role, self.agent_id]
    }

    open spec fn started_at(&self) -> i64 {
        self.start_commit_num
    }

    open spec fn ended_at(&self) -> i64 {
        self.end_commit_num
    }

    open spec fn service(&self) -> Option<Seq<char>> {
        self.service_id
    }

    open spec fn record(&self) -> Seq<char> {
        self.record_id
    }

    open spec fn closed_at(&self, commit_num: i64) -> Self {
        AssociatedAgentView { end_commit_num: commit_num, ..*self }
    }

    proof fn lemma_closed_at(&self, commit_num: i64) {
    }

    proof fn lemma_closed_twice(&self, first: i64, second: i64) {
    }
}

impl VersionedRow for AssociatedAgent {
    fn start_commit_num(&self) -> (r: i64) {
        self.start_commit_num
    }

    fn end_commit_num(&self) -> (r: i64) {
        self.end_commit_num
    }

    fn record_id_ref(&self) -> (r: &String) {
        &self.record_id
    }

    fn service_id_copy(&self) -> (r: Option<String>) {
        copy_opt_string(&self.service_id)
    }

    fn has_version_key(&self, key: &Vec<String>) -> (r: bool) {
        let r = key.len() == 3 && string_eq(&self.record_id, &key[0]) && string_eq(&self.role, &key[1]) && string_eq(&self.agent_id, &key[2]);
        proof {
            if r {
                assert(self@.version_key() =~= strings_view(key@));
            } else if self@.version_key() == strings_view(key@) {
                assert(self@.version_key().len() == 3);
                assert(key@.len() == 3);
                assert(strings_view(key@)[0] == key@[0]@);
                assert(strings_view(key@)[1] == key@[1]@);
                assert(strings_view(key@)[2] == key@[2]@);
            }
        }
        r
    }

    fn version_key_strings(&self) -> (r: Vec<String>) {
        let r = vec![self.record_id.clone(), self.role.clone(), self.agent_id.clone()];
        assert(strings_view(r@) =~= self@.version_key());
        r
    }

    fn close_at(&self, commit_num: i64) -> (r: Self) {
        let mut r = self.clone();
        r.end_commit_num = commit_num;
        r
    }

    fn copy_row(&self) -> (r: Self) {
        self.clone()
    }
}

/// A property of a record, as one version.
#[derive(Debug, PartialEq, Eq)]
pub struct Property {
    pub name: String,
    pub record_id: String,
    pub property_definition: String,
    pub current_page: i32,
    pub wrapped: bool,
    pub start_commit_num: i64,
    pub end_commit_num: i64,
    pub service_id: Option<String>,
}

/// The view of a [`Property`].
pub struct PropertyView {
    pub name: Seq<char>,
    pub record_id: Seq<char>,
    pub property_definition: Seq<char>,
    pub current_page: i32,
    pub wrapped: bool,
    pub start_commit_num: i64,
    pub end_commit_num: i64,
    pub service_id: Option<Seq<char>>,
}

impl View for Property {
    type V = PropertyView;

    open spec fn view(&self) -> PropertyView {
        PropertyView {
            name: self.name@,
            record_id: self.record_id@,
            property_definition: self.property_definition@,
            current_page: self.current_page,
            wrapped: self.wrapped,
            start_commit_num: self.start_commit_num,
            end_commit_num: self.end_commit_num,
            service_id: opt_string_view(self.service_id),
        }
    }
}

impl Clone for Property {
    fn clone(&self) -> (r: Self)
        ensures
            r@ == self@,
    {
        Property {
            name: self.name.clone(),
            record_id: self.record_id.clone(),
            property_definition: self.property_definition.clone(),
            current_page: self.current_page,
            wrapped: self.wrapped,
            start_commit_num: self.start_commit_num,
            end_commit_num: self.end_commit_num,
            service_id: copy_opt_string(&self.service_id),
        }
    }
}

/// A property as it is inserted.
pub type NewProperty = Property;

impl VersionView for PropertyView {
    open spec fn version_key(&self) -> Seq<Seq<char>> {
        seq![self.name, self.record_id]
    }

    open spec fn started_at(&self) -> i64 {
        self.start_commit_num
    }

    open spec fn ended_at(&self) -> i64 {
        self.end_commit_num
    }

    open spec fn service(&self) -> Option<Seq<char>> {
        self.service_id
    }

    open spec fn record(&self) -> Seq<char> {
        self.record_id
    }

    open spec fn closed_at(&self, commit_num: i64) -> Self {
        PropertyView { end_commit_num: commit_num, ..*self }
    }

    proof fn lemma_closed_at(&self, commit_num: i64) {
    }

    proof fn lemma_closed_twice(&self, first: i64, second: i64) {
    }
}

impl VersionedRow for Property {
    fn start_commit_num(&self) -> (r: i64) {
        self.start_commit_num
    }

    fn end_commit_num(&self) -> (r: i64) {
        self.end_commit_num
    }

    fn record_id_ref(&self) -> (r: &String) {
        &self.record_id
    }

    fn service_id_copy(&self) -> (r: Option<String>) {
        copy_opt_string(&self.service_id)
    }

    fn has_version_key(&self, key: &Vec<String>) -> (r: bool) {
        let r = key.len() == 2 && string_eq(&self.name, &key[0]) && string_eq(&self.record_id, &key[1]);
        proof {
            if r {
                assert(self@.version_key() =~= strings_view(key@));
            } else if self@.version_key() == strings_view(key@) {
                assert(self@.version_key().len() == 2);
                assert(key@.len() == 2);
                assert(strings_view(key@)[0] == key@[0]@);
                assert(strings_view(key@)[1] == key@[1]@);
            }
        }
        r
    }

    fn version_key_strings(&self) -> (r: Vec<String>) {
        let r = vec![self.name.clone(), self.record_id.clone()];
        assert(strings_view(r@) =~= self@.version_key());
        r
    }

    fn close_at(&self, commit_num: i64) -> (r: Self) {
        let mut r = self.clone();
        r.end_commit_num = commit_num;
        r
    }

    fn copy_row(&self) -> (r: Self) {
        self.clone()
    }
}

/// A proposal to an agent to take a role on a record, as one version.
#[derive(Debug, PartialEq, Eq)]
pub struct Proposal {
    pub record_id: String,
    pub timestamp: i64,
    pub issuing_agent: String,
    pub receiving_agent: String,
    pub role: String,
    pub properties: Vec<String>,
    pub status: String,
    pub terms: String,
    pub start_commit_num: i64,
    pub end_commit_num: i64,
    pub service_id: Option<String>,
}

/// The view of a [`Proposal`].
pub struct ProposalView {
    pub record_id: Seq<char>,
    pub timestamp: i64,
    pub issuing_agent: Seq<char>,
    pub receiving_agent: Seq<char>,
    pub role: Seq<char>,
    pub properties: Seq<Seq<char>>,
    pub status: Seq<char>,
    pub terms: Seq<char>,
    pub start_commit_num: i64,
    pub end_commit_num: i64,
    pub service_id: Option<Seq<char>>,
}

impl View for Proposal {
    type V = ProposalView;

    open spec fn view(&self) -> ProposalView {
        ProposalView {
            record_id: self.record_id@,
            timestamp: self.timestamp,
            issuing_agent: self.issuing_agent@,
            receiving_agent: self.receiving_agent@,
            role: self.role@,
            properties: strings_view(self.properties@),
            status: self.status@,
            terms: self.terms@,
            start_commit_num: self.start_commit_num,
            end_commit_num: self.end_commit_num,
            service_id: opt_string_view(self.service_id),
        }
    }
}

impl Clone for Proposal {
    fn clone(&self) -> (r: Self)
        ensures
            r@ == self@,
    {
        Proposal {
            record_id: self.record_id.clone(),
            timestamp: self.timestamp,
            issuing_agent: self.issuing_agent.clone(),
            receiving_agent: self.receiving_agent.clone(),
            role: self.role.clone(),
            properties: copy_strings(&self.properties),
            status: self.status.clone(),
            terms: self.terms.clone(),
            start_commit_num: self.start_commit_num,
            end_commit_num: self.end_commit_num,
            service_id: copy_opt_string(&self.service_id),
        }
    }
}

/// A proposal as it is inserted.
pub type NewProposal = Proposal;

impl VersionView for ProposalView {
    open spec fn version_key(&self) -> Seq<Seq<char>> {
        seq![self.record_id, self.receiving_agent, self.role]
    }

    open spec fn started_at(&self) -> i64 {
        self.start_commit_num
    }

    open spec fn ended_at(&self) -> i64 {
        self.end_commit_num
    }

    open spec fn service(&self) -> Option<Seq<char>> {
        self.service_id
    }

    open spec fn record(&self) -> Seq<char> {
        self.record_id
    }

    open spec fn closed_at(&self, commit_num: i64) -> Self {
        ProposalView { end_commit_num: commit_num, ..*self }
    }

    proof fn lemma_closed_at(&self, commit_num: i64) {
    }

    proof fn lemma_closed_twice(&self, first: i64, second: i64) {
    }
}

impl VersionedRow for Proposal {
    fn start_commit_num(&self) -> (r: i64) {
        self.start_commit_num
    }

    fn end_commit_num(&self) -> (r: i64) {
        self.end_commit_num
    }

    fn record_id_ref(&self) -> (r: &String) {
        &self.record_id
    }

    fn service_id_copy(&self) -> (r: Option<String>) {
        copy_opt_string(&self.service_id)
    }

    fn has_version_key(&self, key: &Vec<String>) -> (r: bool) {
        let r = key.len() == 3 && string_eq(&self.record_id, &key[0]) && string_eq(&self.receiving_agent, &key[1]) && string_eq(&self.role, &key[2]);
        proof {
            if r {
                assert(self@.version_key() =~= strings_view(key@));
            } else if self@.version_key() == strings_view(key@) {
                assert(self@.version_key().len() == 3);
                assert(key@.len() == 3);
                assert(strings_view(key@)[0] == key@[0]@);
                assert(strings_view(key@)[1] == key@[1]@);
                assert(strings_view(key@)[2] == key@[2]@);
            }
        }
        r
    }

    fn version_key_strings(&self) -> (r: Vec<String>) {
        let r = vec![self.record_id.clone(), self.receiving_agent.clone(), self.role.clone()];
        assert(strings_view(r@) =~= self@.version_key());
        r
    }

    fn close_at(&self, commit_num: i64) -> (r: Self) {
        let mut r = self.clone();
        r.end_commit_num = commit_num;
        r
    }

    fn copy_row(&self) -> (r: Self) {
        self.clone()
    }
}

/// A tracked record, as one version.
#[derive(Debug, PartialEq, Eq)]
pub struct Record {
    pub record_id: String,
    pub schema: String,
    pub finalized: bool,
    pub owners: Vec<String>,
    pub custodians: Vec<String>,
    pub start_commit_num: i64,
    pub end_commit_num: i64,
    pub service_id: Option<String>,
}

/// The view of a [`Record`].
pub struct RecordView {
    pub record_id: Seq<char>,
    pub schema: Seq<char>,
    pub finalized: bool,
    pub owners: Seq<Seq<char>>,
    pub custodians: Seq<Seq<char>>,
    pub start_commit_num: i64,
    pub end_commit_num: i64,
    pub service_id: Option<Seq<char>>,
}

impl View for Record {
    type V = RecordView;

    open spec fn view(&self) -> RecordView {
        RecordView {
            record_id: self.record_id@,
            schema: self.schema@,
            finalized: self.finalized,
            owners: strings_view(self.owners@),
            custodians: strings_view(self.custodians@),
            start_commit_num: self.start_commit_num,
            end_commit_num: self.end_commit_num,
            service_id: opt_string_view(self.service_id),
        }
    }
}

impl Clone for Record {
    fn clone(&self) -> (r: Self)
        ensures
            r@ == self@,
    {
        Record {
            record_id: self.record_id.clone(),
            schema: self.schema.clone(),
            finalized: self.finalized,
            owners: copy_strings(&self.owners),
            custodians: copy_strings(&self.custodians),
            start_commit_num: self.start_commit_num,
            end_commit_num: self.end_commit_num,
            service_id: copy_opt_string(&self.service_id),
        }
    }
}

/// A record as it is inserted.
pub type NewRecord = Record;

impl VersionView for RecordView {
    open spec fn version_key(&self) -> Seq<Seq<char>> {
        seq![self.record_id]
    }

    open spec fn started_at(&self) -> i64 {
        self.start_commit_num
    }

    open spec fn ended_at(&self) -> i64 {
        self.end_commit_num
    }

    open spec fn service(&self) -> Option<Seq<char>> {
        self.service_id
    }

    open spec fn record(&self) -> Seq<char> {
        self.record_id
    }

    open spec fn closed_at(&self, commit_num: i64) -> Self {
        RecordView { end_commit_num: commit_num, ..*self }
    }

    proof fn lemma_closed_at(&self, commit_num: i64) {
    }

    proof fn lemma_closed_twice(&self, first: i64, second: i64) {
    }
}

impl VersionedRow for Record {
    fn start_commit_num(&self) -> (r: i64) {
        self.start_commit_num
    }

    fn end_commit_num(&self) -> (r: i64) {
        self.end_commit_num
    }

    fn record_id_ref(&self) -> (r: &String) {
        &self.record_id
    }

    fn service_id_copy(&self) -> (r: Option<String>) {
        copy_opt_string(&self.service_id)
    }

    fn has_version_key(&self, key: &Vec<String>) -> (r: bool) {
        let r = key.len() == 1 && string_eq(&self.record_id, &key[0]);
        proof {
            if r {
                assert(self@.version_key() =~= strings_view(key@));
            } else if self@.version_key() == strings_view(key@) {
                assert(self@.version_key().len() == 1);
                assert(key@.len() == 1);
                assert(strings_view(key@)[0] == key@[0]@);
            }
        }
        r
    }

    fn version_key_strings(&self) -> (r: Vec<String>) {
        let r = vec![self.record_id.clone()];
        assert(strings_view(r@) =~= self@.version_key());
        r
    }

    fn close_at(&self, commit_num: i64) -> (r: Self) {
        let mut r = self.clone();
        r.end_commit_num = commit_num;
        r
    }

    fn copy_row(&self) -> (r: Self) {
        self.clone()
    }
}

/// A value reported for a property of a record, as one version.
#[derive(Debug, PartialEq, Eq)]
pub struct ReportedValue {
    pub property_name: String,
    pub record_id: String,
    pub reporter_index: i32,
    pub timestamp: i64,
    pub data_type: String,
    pub boolean_value: Option<bool>,
    pub number_value: Option<i64>,
    pub string_value: Option<String>,
    pub enum_value: Option<i32>,
    pub struct_values: Option<Vec<String>>,
    pub lat_long_value: Option<(i64, i64)>,
    pub start_commit_num: i64,
    pub end_commit_num: i64,
    pub service_id: Option<String>,
}

/// The view of a [`ReportedValue`].
pub struct ReportedValueView {
    pub property_name: Seq<char>,
    pub record_id: Seq<char>,
    pub reporter_index: i32,
    pub timestamp: i64,
    pub data_type: Seq<char>,
    pub boolean_value: Option<bool>,
    pub number_value: Option<i64>,
    pub string_value: Option<Seq<char>>,
    pub enum_value: Option<i32>,
    pub struct_values: Option<Seq<Seq<char>>>,
    pub lat_long_value: Option<(i64, i64)>,
    pub start_commit_num: i64,
    pub end_commit_num: i64,
    pub service_id: Option<Seq<char>>,
}

impl View for ReportedValue {
    type V = ReportedValueView;

    open spec fn view(&self) -> ReportedValueView {
        ReportedValueView {
            property_name: self.property_name@,
            record_id: self.record_id@,
            reporter_index: self.reporter_index,
            timestamp: self.timestamp,
            data_type: self.data_type@,
            boolean_value: self.boolean_value,
            number_value: self.number_value,
            string_value: opt_string_view(self.string_value),
            enum_value: self.enum_value,
            struct_values: opt_strings_view(self.struct_values),
            lat_long_value: self.lat_long_value,
            start_commit_num: self.start_commit_num,
            end_commit_num: self.end_commit_num,
            service_id: opt_string_view(self.service_id),
        }
    }
}

impl Clone for ReportedValue {
    fn clone(&self) -> (r: Self)
        ensures
            r@ == self@,
    {
        ReportedValue {
            property_name: self.property_name.clone(),
            record_id: self.record_id.clone(),
            reporter_index: self.reporter_index,
            timestamp: self.timestamp,
            data_type: self.data_type.clone(),
            boolean_value: self.boolean_value,
            number_value: self.number_value,
            string_value: copy_opt_string(&self.string_value),
            enum_value: self.enum_value,
            struct_values: copy_opt_strings(&self.struct_values),
            lat_long_value: self.lat_long_value,
            start_commit_num: self.start_commit_num,
            end_commit_num: self.end_commit_num,
            service_id: copy_opt_string(&self.service_id),
        }
    }
}

/// A reported value as it is inserted.
pub type NewReportedValue = ReportedValue;

impl VersionView for ReportedValueView {
    open spec fn version_key(&self) -> Seq<Seq<char>> {
        seq![self.record_id, self.property_name]
    }

    open spec fn started_at(&self) -> i64 {
        self.start_commit_num
    }

    open spec fn ended_at(&self) -> i64 {
        self.end_commit_num
    }

    open spec fn service(&self) -> Option<Seq<char>> {
        self.service_id
    }

    open spec fn record(&self) -> Seq<char> {
        self.record_id
    }

    open spec fn closed_at(&self, commit_num: i64) -> Self {
        ReportedValueView { end_commit_num: commit_num, ..*self }
    }

    proof fn lemma_closed_at(&self, commit_num: i64) {
    }

    proof fn lemma_closed_twice(&self, first: i64, second: i64) {
    }
}

impl VersionedRow for ReportedValue {
    fn start_commit_num(&self) -> (r: i64) {
        self.start_commit_num
    }

    fn end_commit_num(&self) -> (r: i64) {
        self.end_commit_num
    }

    fn record_id_ref(&self) -> (r: &String) {
        &self.record_id
    }

    fn service_id_copy(&self) -> (r: Option<String>) {
        copy_opt_string(&self.service_id)
    }

    fn has_version_key(&self, key: &Vec<String>) -> (r: bool) {
        let r = key.len() == 2 && string_eq(&self.record_id, &key[0]) && string_eq(&self.property_name, &key[1]);
        proof {
            if r {
                assert(self@.version_key() =~= strings_view(key@));
            } else if self@.version_key() == strings_view(key@) {
                assert(self@.version_key().len() == 2);
                assert(key@.len() == 2);
                assert(strings_view(key@)[0] == key@[0]@);
                assert(strings_view(key@)[1] == key@[1]@);
            }
        }
        r
    }

    fn version_key_strings(&self) -> (r: Vec<String>) {
        let r = vec![self.record_id.clone(), self.property_name.clone()];
        assert(strings_view(r@) =~= self@.version_key());
        r
    }

    fn close_at(&self, commit_num: i64) -> (r: Self) {
        let mut r = self.clone();
        r.end_commit_num = commit_num;
        r
    }

    fn copy_row(&self) -> (r: Self) {
        self.clone()
    }
}

/// An agent's permission to report a property of a record, as one version.
#[derive(Debug, PartialEq, Eq)]
pub struct Reporter {
    pub property_name: String,
    pub record_id: String,
    pub public_key: String,
    pub authorized: bool,
    pub reporter_index: i32,
    pub start_commit_num: i64,
    pub end_commit_num: i64,
    pub service_id: Option<String>,
}

/// The view of a [`Reporter`].
pub struct ReporterView {
    pub property_name: Seq<char>,
    pub record_id: Seq<char>,
    pub public_key: Seq<char>,
    pub authorized: bool,
    pub reporter_index: i32,
    pub start_commit_num: i64,
    pub end_commit_num: i64,
    pub service_id: Option<Seq<char>>,
}

impl View for Reporter {
    type V = ReporterView;

    open spec fn view(&self) -> ReporterView {
        ReporterView {
            property_name: self.property_name@,
            record_id: self.record_id@,
            public_key: self.public_key@,
            authorized: self.authorized,
            reporter_index: self.reporter_index,
            start_commit_num: self.start_commit_num,
            end_commit_num: self.end_commit_num,
            service_id: opt_string_view(self.service_id),
        }
    }
}

impl Clone for Reporter {
    fn clone(&self) -> (r: Self)
        ensures
            r@ == self@,
    {
        Reporter {
            property_name: self.property_name.clone(),
            record_id: self.record_id.clone(),
            public_key: self.public_key.clone(),
            authorized: self.authorized,
            reporter_index: self.reporter_index,
            start_commit_num: self.start_commit_num,
            end_commit_num: self.end_commit_num,
            service_id: copy_opt_string(&self.service_id),
        }
    }
}

/// A reporter as it is inserted.
pub type NewReporter = Reporter;

impl VersionView for ReporterView {
    open spec fn version_key(&self) -> Seq<Seq<char>> {
        seq![self.record_id, self.property_name, self.public_key]
    }

    open spec fn started_at(&self) -> i64 {
        self.start_commit_num
    }

    open spec fn ended_at(&self) -> i64 {
        self.end_commit_num
    }

    open spec fn service(&self) -> Option<Seq<char>> {
        self.service_id
    }

    open spec fn record(&self) -> Seq<char> {
        self.record_id
    }

    open spec fn closed_at(&self, commit_num: i64) -> Self {
        ReporterView { end_commit_num: commit_num, ..*self }
    }

    proof fn lemma_closed_at(&self, commit_num: i64) {
    }

    proof fn lemma_closed_twice(&self, first: i64, second: i64) {
    }
}

impl VersionedRow for Reporter {
    fn start_commit_num(&self) -> (r: i64) {
        self.start_commit_num
    }

    fn end_commit_num(&self) -> (r: i64) {
        self.end_commit_num
    }

    fn record_id_ref(&self) -> (r: &String) {
        &self.record_id
    }

    fn service_id_copy(&self) -> (r: Option<String>) {
        copy_opt_string(&self.service_id)
    }

    fn has_version_key(&self, key: &Vec<String>) -> (r: bool) {
        let r = key.len() == 3 && string_eq(&self.record_id, &key[0]) && string_eq(&self.property_name, &key[1]) && string_eq(&self.public_key, &key[2]);
        proof {
            if r {
                assert(self@.version_key() =~= strings_view(key@));
            } else if self@.version_key() == strings_view(key@) {
                assert(self@.version_key().len() == 3);
                assert(key@.len() == 3);
                assert(strings_view(key@)[0] == key@[0]@);
                assert(strings_view(key@)[1] == key@[1]@);
                assert(strings_view(key@)[2] == key@[2]@);
            }
        }
        r
    }

    fn version_key_strings(&self) -> (r: Vec<String>) {
        let r = vec![self.record_id.clone(), self.property_name.clone(), self.public_key.clone()];
        assert(strings_view(r@) =~= self@.version_key());
        r
    }

    fn close_at(&self, commit_num: i64) -> (r: Self) {
        let mut r = self.clone();
        r.end_commit_num = commit_num;
        r
    }

    fn copy_row(&self) -> (r: Self) {
        self.clone()
    }
}

/// The definition of a property in a schema, as one version.
#[derive(Debug, PartialEq, Eq)]
pub struct GridPropertyDefinition {
    pub name: String,
    pub schema_name: String,
    pub data_type: String,
    pub required: bool,
    pub description: String,
    pub number_exponent: i64,
    pub enum_options: Vec<String>,
    pub parent_name: Option<String>,
    pub start_commit_num: i64,
    pub end_commit_num: i64,
    pub service_id: Option<String>,
}

/// The view of a [`GridPropertyDefinition`].
pub struct GridPropertyDefinitionView {
    pub name: Seq<char>,
    pub schema_name: Seq<char>,
    pub data_type: Seq<char>,
    pub required: bool,
    pub description: Seq<char>,
    pub number_exponent: i64,
    pub enum_options: Seq<Seq<char>>,
    pub parent_name: Option<Seq<char>>,
    pub start_commit_num: i64,
    pub end_commit_num: i64,
    pub service_id: Option<Seq<char>>,
}

impl View for GridPropertyDefinition {
    type V = GridPropertyDefinitionView;

    open spec fn view(&self) -> GridPropertyDefinitionView {
        GridPropertyDefinitionView {
            name: self.name@,
            schema_name: self.schema_name@,
            data_type: self.data_type@,
            required: self.required,
            description: self.description@,
            number_exponent: self.number_exponent,
            enum_options: strings_view(self.enum_options@),
            parent_name: opt_string_view(self.parent_name),
            start_commit_num: self.start_commit_num,
            end_commit_num: self.end_commit_num,
            service_id: opt_string_view(self.service_id),
        }
    }
}

impl Clone for GridPropertyDefinition {
    fn clone(&self) -> (r: Self)
        ensures
            r@ == self@,
    {
        GridPropertyDefinition {
            name: self.name.clone(),
            schema_name: self.schema_name.clone(),
            data_type: self.data_type.clone(),
            required: self.required,
            description: self.description.clone(),
            number_exponent: self.number_exponent,
            enum_options: copy_strings(&self.enum_options),
            parent_name: copy_opt_string(&self.parent_name),
            start_commit_num: self.start_commit_num,
            end_commit_num: self.end_commit_num,
            service_id: copy_opt_string(&self.service_id),
        }
    }
}

/// A reported value joined with its reporter and with the metadata, as JSON text, of the reporting agent.
#[derive(Debug, PartialEq, Eq)]
pub struct ReportedValueReporterToAgentMetadata {
    pub property_name: String,
    pub record_id: String,
    pub reporter_index: i32,
    pub timestamp: i64,
    pub data_type: String,
    pub boolean_value: Option<bool>,
    pub number_value: Option<i64>,
    pub string_value: Option<String>,
    pub enum_value: Option<i32>,
    pub struct_values: Option<Vec<String>>,
    pub lat_long_value: Option<(i64, i64)>,
    pub public_key: Option<String>,
    pub authorized: Option<bool>,
    pub metadata: Option<String>,
    pub reported_value_end_commit_num: i64,
    pub reporter_end_commit_num: Option<i64>,
    pub service_id: Option<String>,
}

/// The view of a [`ReportedValueReporterToAgentMetadata`].
pub struct ReportedValueReporterToAgentMetadataView {
    pub property_name: Seq<char>,
    pub record_id: Seq<char>,
    pub reporter_index: i32,
    pub timestamp: i64,
    pub data_type: Seq<char>,
    pub boolean_value: Option<bool>,
    pub number_value: Option<i64>,
    pub string_value: Option<Seq<char>>,
    pub enum_value: Option<i32>,
    pub struct_values: Option<Seq<Seq<char>>>,
    pub lat_long_value: Option<(i64, i64)>,
    pub public_key: Option<Seq<char>>,
    pub authorized: Option<bool>,
    pub metadata: Option<Seq<char>>,
    pub reported_value_end_commit_num: i64,
    pub reporter_end_commit_num: Option<i64>,
    pub service_id: Option<Seq<char>>,
}

impl View for ReportedValueReporterToAgentMetadata {
    type V = ReportedValueReporterToAgentMetadataView;

    open spec fn view(&self) -> ReportedValueReporterToAgentMetadataView {
        ReportedValueReporterToAgentMetadataView {
            property_name: self.property_name@,
            record_id: self.record_id@,
            reporter_index: self.reporter_index,
            timestamp: self.timestamp,
            data_type: self.data_type@,
            boolean_value: self.boolean_value,
            number_value: self.number_value,
            string_value: opt_string_view(self.string_value),
            enum_value: self.enum_value,
            struct_values: opt_strings_view(self.struct_values),
            lat_long_value: self.lat_long_value,
            public_key: opt_string_view(self.public_key),
            authorized: self.authorized,
            metadata: opt_string_view(self.metadata),
            reported_value_end_commit_num: self.reported_value_end_commit_num,
            reporter_end_commit_num: self.reporter_end_commit_num,
            service_id: opt_string_view(self.service_id),
        }
    }
}

impl Clone for ReportedValueReporterToAgentMetadata {
    fn clone(&self) -> (r: Self)
        ensures
            r@ == self@,
    {
        ReportedValueReporterToAgentMetadata {
            property_name: self.property_name.clone(),
            record_id: self.record_id.clone(),
            reporter_index: self.reporter_index,
            timestamp: self.timestamp,
            data_type: self.data_type.clone(),
            boolean_value: self.boolean_value,
            number_value: self.number_value,
            string_value: copy_opt_string(&self.string_value),
            enum_value: self.enum_value,
            struct_values: copy_opt_strings(&self.struct_values),
            lat_long_value: self.lat_long_value,
            public_key: copy_opt_string(&self.public_key),
            authorized: self.authorized,
            metadata: copy_opt_string(&self.metadata),
            reported_value_end_commit_num: self.reported_value_end_commit_num,
            reporter_end_commit_num: self.reporter_end_commit_num,
            service_id: copy_opt_string(&self.service_id),
        }
    }
}

} // verus!
