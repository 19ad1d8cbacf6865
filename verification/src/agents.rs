//! What the REST API answers about agents: the slice of an agent that it
//! shows, and the outcome of listing or fetching agents.
use vstd::prelude::*;

use crate::prefixed;
use crate::models::copy_strings;
use crate::rest_api_error::RestApiResponseError;
use crate::versioned::{opt_string_view, strings_view, views};

verus! {

/// Declares `serde_json::Value`, the metadata of an agent.
#[verifier::external_type_specification]
#[verifier::external_body]
pub struct ExJsonValue(serde_json::Value);

/// `serde_json::Value`'s `clone`: a copy equal to the value.
#[verifier::external_body]
fn clone_json(v: &serde_json::Value) -> (r: serde_json::Value)
    ensures
        r == *v,
{
    v.clone()
}

/// An agent of an organization, as one version.
#[derive(Debug)]
pub struct Agent {
    pub public_key: String,
    pub org_id: String,
    pub active: bool,
    pub roles: Vec<String>,
    pub metadata: serde_json::Value,
    pub start_commit_num: i64,
    pub end_commit_num: i64,
    pub service_id: Option<String>,
}

/// The view of an [`Agent`].
pub struct AgentView {
    pub public_key: Seq<char>,
    pub org_id: Seq<char>,
    pub active: bool,
    pub roles: Seq<Seq<char>>,
    pub metadata: serde_json::Value,
    pub start_commit_num: i64,
    pub end_commit_num: i64,
    pub service_id: Option<Seq<char>>,
}

impl View for Agent {
    type V = AgentView;

    open spec fn view(&self) -> AgentView {
        AgentView {
            public_key: self.public_key@,
            org_id: self.org_id@,
            active: self.active,
            roles: strings_view(self.roles@),
            metadata: self.metadata,
            start_commit_num: self.start_commit_num,
            end_commit_num: self.end_commit_num,
            service_id: opt_string_view(self.service_id),
        }
    }
}

/// What the REST API shows of an agent.
#[derive(Debug)]
pub struct AgentSlice {
    pub public_key: String,
    pub org_id: String,
    pub active: bool,
    pub roles: Vec<String>,
    pub metadata: serde_json::Value,
    pub service_id: Option<String>,
}

/// The view of an [`AgentSlice`].
pub struct AgentSliceView {
    pub public_key: Seq<char>,
    pub org_id: Seq<char>,
    pub active: bool,
    pub roles: Seq<Seq<char>>,
    pub metadata: serde_json::Value,
    pub service_id: Option<Seq<char>>,
}

impl View for AgentSlice {
    type V = AgentSliceView;

    open spec fn view(&self) -> AgentSliceView {
        AgentSliceView {
            public_key: self.public_key@,
            org_id: self.org_id@,
            active: self.active,
            roles: strings_view(self.roles@),
            metadata: self.metadata,
            service_id: opt_string_view(self.service_id),
        }
    }
}

/// The slice of the agent `a` that the REST API shows.
pub open spec fn slice_of(a: AgentView) -> AgentSliceView {
    AgentSliceView {
        public_key: a.public_key,
        org_id: a.org_id,
        active: a.active,
        roles: a.roles,
        metadata: a.metadata,
        service_id: a.service_id,
    }
}

impl AgentSlice {
    /// The slice of `agent` that the REST API shows: all but its commits.
    pub fn from_agent(agent: &Agent) -> (r: Self)
        ensures
            r@ == slice_of(agent@),
            r@.public_key == agent@.public_key,
            r@.org_id == agent@.org_id,
            r@.active == agent@.active,
            r@.roles == agent@.roles,
            r@.metadata == agent@.metadata,
            r@.service_id == agent@.service_id,
    {
        let service_id = match &agent.service_id {
            Some(s) => Some(s.clone()),
            None => None,
        };
        AgentSlice {
            public_key: agent.public_key.clone(),
            org_id: agent.org_id.clone(),
            active: agent.active,
            roles: copy_strings(&agent.roles),
            metadata: clone_json(&agent.metadata),
            service_id,
        }
    }
}

/// The answer to a listing of agents: the slice of each, in order.
pub fn agent_slices(agents: &[Agent]) -> (r: Vec<AgentSlice>)
    ensures
        views(r@) == views(agents@).map_values(|a: AgentView| slice_of(a)),
        r@.len() == agents@.len(),
        forall|i: int|
            #![trigger r@[i]]
            0 <= i < agents@.len() ==> {
                &&& r@[i]@.public_key == agents@[i]@.public_key
                &&& r@[i]@.org_id == agents@[i]@.org_id
                &&& r@[i]@.active == agents@[i]@.active
                &&& r@[i]@.roles == agents@[i]@.roles
                &&& r@[i]@.metadata == agents@[i]@.metadata
                &&& r@[i]@.service_id == agents@[i]@.service_id
            },
{
    let ghost f = |a: AgentView| slice_of(a);
    let mut r: Vec<AgentSlice> = Vec::new();
    let mut i: usize = 0;
    while i < agents.len()
        invariant
            i <= agents@.len(),
            f == (|a: AgentView| slice_of(a)),
            views(r@) == views(agents@).take(i as int).map_values(f),
        decreases agents.len() - i,
    {
        let ghost before = r@;
        let slice = AgentSlice::from_agent(&agents[i]);
        r.push(slice);
        assert(views(r@) =~= views(before).push(f(agents@[i as int]@)));
        assert(views(agents@).take(i + 1).map_values(f) =~= views(agents@).take(i as int).map_values(f).push(
            f(agents@[i as int]@),
        ));
        i = i + 1;
    }
    assert(views(agents@).take(agents@.len() as int) =~= views(agents@));
    assert forall|i: int| #![trigger r@[i]] 0 <= i < agents@.len() implies r@[i]@ == slice_of(agents@[i]@) by {
        assert(views(r@)[i] == r@[i]@);
        assert(views(agents@)[i] == agents@[i]@);
    }
    r
}

/// The answer to a fetch of the agent with `public_key`: its slice where it
/// was found, a missing-resource error that names the key where it was not.
pub fn agent_or_not_found(agent: Option<Agent>, public_key: &str) -> (r: Result<AgentSlice, RestApiResponseError>)
    ensures
        match agent {
            Some(a) => r matches Ok(s) && s@ == slice_of(a@) && s@.public_key == a@.public_key && s@.org_id
                == a@.org_id && s@.active == a@.active && s@.roles == a@.roles && s@.metadata == a@.metadata
                && s@.service_id == a@.service_id,
            None => r matches Err(RestApiResponseError::NotFoundError(m)) && m@
                == "Could not find agent with public key: "@ + public_key@,
        },
{
    match agent {
        Some(a) => Ok(AgentSlice::from_agent(&a)),
        None => Err(
            RestApiResponseError::NotFoundError(prefixed("Could not find agent with public key: ", public_key)),
        ),
    }
}

/// The error of a request whose body is not a well-formed protobuf message,
/// from the text of the parse error.
pub fn bad_protobuf_message(detail: &str) -> (r: RestApiResponseError)
    ensures
        r matches RestApiResponseError::BadRequest(m) && m@ == "Protobuf message was badly formatted. "@
            + detail@,
{
    RestApiResponseError::BadRequest(prefixed("Protobuf message was badly formatted. ", detail))
}

} // verus!
