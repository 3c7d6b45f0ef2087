//! What is said to the vector store, and what its answers mean.
//!
//! Requests are described here down to their address and headers, and the
//! answers are read here once they have arrived as JSON. Sending and
//! receiving is the caller's part.

use crate::json::{find_member, member, text_member, text_of, Json};
use crate::text::{same_text, texts};
use vstd::prelude::*;
use vstd::string::*;

verus! {

/// The form in which the answer to a posted request is wanted.
#[derive(Clone, Copy, Debug, PartialEq, Eq, Structural)]
pub enum PostResponse {
    Json,
    Text,
}

/// How an index is to be made.
#[derive(Debug, PartialEq, Eq)]
pub struct CreateIndexParameters {
    pub name: String,
    pub dimension: u32,
    pub metric: String,
    pub pods: u32,
    pub replicas: u32,
    pub pod_type: String,
}

/// Whose key a key is.
#[derive(Debug, PartialEq, Eq)]
pub struct WhoAmIResponse {
    pub project_name: String,
    pub user_label: String,
    pub user_name: String,
}

/// An index of the store.
#[derive(Debug, PartialEq, Eq)]
pub struct Index {
    pub api_key: String,
    pub index_name: String,
    pub region: String,
}

/// A place of the store to send a request to.
#[derive(Debug, PartialEq, Eq)]
pub enum Endpoint {
    /// In a region.
    CreateIndex(String),
    /// In a region, of an index.
    DescribeIndex(String, String),
    /// Of an index, in a project, in a region.
    IndexStatistics(String, String, String),
    /// In a region.
    ListIndexes(String),
    /// Of an index, in a project, in a region.
    Query(String, String, String),
    /// Of an index, in a project, in a region.
    Upsert(String, String, String),
    /// In a region.
    WhoAmI(String),
}

/// What an [`Endpoint`] says, as mathematics.
pub enum EndpointView {
    CreateIndex(Seq<char>),
    DescribeIndex(Seq<char>, Seq<char>),
    IndexStatistics(Seq<char>, Seq<char>, Seq<char>),
    ListIndexes(Seq<char>),
    Query(Seq<char>, Seq<char>, Seq<char>),
    Upsert(Seq<char>, Seq<char>, Seq<char>),
    WhoAmI(Seq<char>),
}

impl View for Endpoint {
    type V = EndpointView;

    open spec fn view(&self) -> EndpointView {
        match *self {
            Endpoint::CreateIndex(region) => EndpointView::CreateIndex(region@),
            Endpoint::DescribeIndex(region, index_name) => EndpointView::DescribeIndex(
                region@,
                index_name@,
            ),
            Endpoint::IndexStatistics(
                index_name,
                project_name,
                region,
            ) => EndpointView::IndexStatistics(index_name@, project_name@, region@),
            Endpoint::ListIndexes(region) => EndpointView::ListIndexes(region@),
            Endpoint::Query(index_name, project_name, region) => EndpointView::Query(
                index_name@,
                project_name@,
                region@,
            ),
            Endpoint::Upsert(index_name, project_name, region) => EndpointView::Upsert(
                index_name@,
                project_name@,
                region@,
            ),
            Endpoint::WhoAmI(region) => EndpointView::WhoAmI(region@),
        }
    }
}

/// The address of the service that manages the indexes of a region, with a
/// path on it.
pub open spec fn controller_url(region: Seq<char>, path: Seq<char>) -> Seq<char> {
    "https://controller."@ + region + ".pinecone.io/"@ + path
}

/// The address of the service that holds an index, with a path on it.
pub open spec fn index_url(
    index_name: Seq<char>,
    project_name: Seq<char>,
    region: Seq<char>,
    path: Seq<char>,
) -> Seq<char> {
    "https://"@ + index_name + "-"@ + project_name + ".svc."@ + region + ".pinecone.io/"@ + path
}

/// The headers that say what kind of answer is accepted and what kind of
/// body is sent, for those of the two that are given.
pub open spec fn kind_headers(accept: Option<Seq<char>>, content_type: Option<Seq<char>>) -> Seq<
    (Seq<char>, Seq<char>),
> {
    (match accept {
        Some(kind) => seq![("accept"@, kind)],
        None => Seq::empty(),
    }) + (match content_type {
        Some(kind) => seq![("content-type"@, kind)],
        None => Seq::empty(),
    })
}

impl EndpointView {
    /// The address of the endpoint.
    pub open spec fn url(self) -> Seq<char> {
        match self {
            EndpointView::CreateIndex(region) => controller_url(region, "databases"@),
            EndpointView::DescribeIndex(region, index_name) => controller_url(
                region,
                "databases/"@ + index_name,
            ),
            EndpointView::IndexStatistics(index_name, project_name, region) => index_url(
                index_name,
                project_name,
                region,
                "describe_index_stats"@,
            ),
            EndpointView::ListIndexes(region) => controller_url(region, "databases"@),
            EndpointView::Query(index_name, project_name, region) => index_url(
                index_name,
                project_name,
                region,
                "query"@,
            ),
            EndpointView::Upsert(index_name, project_name, region) => index_url(
                index_name,
                project_name,
                region,
                "vectors/upsert"@,
            ),
            EndpointView::WhoAmI(region) => controller_url(region, "actions/whoami"@),
        }
    }

    /// The kind of answer that the endpoint is asked for, if any is named.
    pub open spec fn accept(self) -> Option<Seq<char>> {
        match self {
            EndpointView::CreateIndex(..) => Some("text/plain"@),
            EndpointView::DescribeIndex(..) => Some("application/json"@),
            EndpointView::IndexStatistics(..) => Some("text/plain"@),
            EndpointView::ListIndexes(..) => Some("application/json; charset=utf-8"@),
            EndpointView::Query(..) => Some("application/json"@),
            EndpointView::Upsert(..) => Some("text/plain"@),
            EndpointView::WhoAmI(..) => None,
        }
    }

    /// The kind of body that the endpoint is sent, if any is named.
    pub open spec fn content_type(self) -> Option<Seq<char>> {
        match self {
            EndpointView::CreateIndex(..) => Some("application/json"@),
            EndpointView::DescribeIndex(..) => None,
            EndpointView::IndexStatistics(..) => Some("application/json"@),
            EndpointView::ListIndexes(..) => None,
            EndpointView::Query(..) => Some("application/json"@),
            EndpointView::Upsert(..) => Some("application/json"@),
            EndpointView::WhoAmI(..) => None,
        }
    }

    /// The headers of a request to the endpoint: the key, then the kinds.
    pub open spec fn headers(self, api_key: Seq<char>) -> Seq<(Seq<char>, Seq<char>)> {
        seq![("Api-Key"@, api_key)] + kind_headers(self.accept(), self.content_type())
    }

    /// Whether a body can be posted to the endpoint.
    pub open spec fn takes_post(self) -> bool {
        self is CreateIndex || self is Query || self is Upsert
    }
}

/// The names and values of a list of headers.
pub open spec fn header_views(headers: Seq<(String, String)>) -> Seq<(Seq<char>, Seq<char>)> {
    headers.map_values(|header: (String, String)| (header.0@, header.1@))
}

fn controller(region: &String, path: &str) -> (url: String)
    ensures
        url@ == controller_url(region@, path@),
{
    let mut url = String::from_str("https://controller.");
    url.append(region.as_str());
    url.append(".pinecone.io/");
    url.append(path);
    url
}

fn service(index_name: &String, project_name: &String, region: &String, path: &str) -> (url:
    String)
    ensures
        url@ == index_url(index_name@, project_name@, region@, path@),
{
    let mut url = String::from_str("https://");
    url.append(index_name.as_str());
    url.append("-");
    url.append(project_name.as_str());
    url.append(".svc.");
    url.append(region.as_str());
    url.append(".pinecone.io/");
    url.append(path);
    url
}

impl Endpoint {
    /// The address of the endpoint.
    pub fn get_endpoint_url(&self) -> (url: String)
        ensures
            url@ == self@.url(),
    {
        match self {
            Endpoint::CreateIndex(region) => controller(region, "databases"),
            Endpoint::DescribeIndex(region, index_name) => {
                let mut path = String::from_str("databases/");
                path.append(index_name.as_str());
                controller(region, path.as_str())
            },
            Endpoint::IndexStatistics(index_name, project_name, region) => service(
                index_name,
                project_name,
                region,
                "describe_index_stats",
            ),
            Endpoint::ListIndexes(region) => controller(region, "databases"),
            Endpoint::Query(index_name, project_name, region) => service(
                index_name,
                project_name,
                region,
                "query",
            ),
            Endpoint::Upsert(index_name, project_name, region) => service(
                index_name,
                project_name,
                region,
                "vectors/upsert",
            ),
            Endpoint::WhoAmI(region) => controller(region, "actions/whoami"),
        }
    }

    /// The kind of answer that the endpoint is asked for, if any is named.
    pub fn accept(&self) -> (kind: Option<&'static str>)
        ensures
            match kind {
                Some(kind) => self@.accept() == Some(kind@),
                None => self@.accept() is None,
            },
    {
        match self {
            Endpoint::CreateIndex(..) => Some("text/plain"),
            Endpoint::DescribeIndex(..) => Some("application/json"),
            Endpoint::IndexStatistics(..) => Some("text/plain"),
            Endpoint::ListIndexes(..) => Some("application/json; charset=utf-8"),
            Endpoint::Query(..) => Some("application/json"),
            Endpoint::Upsert(..) => Some("text/plain"),
            Endpoint::WhoAmI(..) => None,
        }
    }

    /// The kind of body that the endpoint is sent, if any is named.
    pub fn content_type(&self) -> (kind: Option<&'static str>)
        ensures
            match kind {
                Some(kind) => self@.content_type() == Some(kind@),
                None => self@.content_type() is None,
            },
    {
        match self {
            Endpoint::CreateIndex(..) => Some("application/json"),
            Endpoint::DescribeIndex(..) => None,
            Endpoint::IndexStatistics(..) => Some("application/json"),
            Endpoint::ListIndexes(..) => None,
            Endpoint::Query(..) => Some("application/json"),
            Endpoint::Upsert(..) => Some("application/json"),
            Endpoint::WhoAmI(..) => None,
        }
    }

    /// The headers of a request to the endpoint, name and value each: the
    /// key, then what is accepted, then what is sent.
    pub fn get_headers(&self, api_key: &str) -> (headers: Vec<(String, String)>)
        ensures
            header_views(headers@) == self@.headers(api_key@),
    {
        let mut headers: Vec<(String, String)> = Vec::new();
        headers.push((String::from_str("Api-Key"), String::from_str(api_key)));
        match self.accept() {
            Some(kind) => {
                headers.push((String::from_str("accept"), String::from_str(kind)));
            },
            None => {},
        }
        match self.content_type() {
            Some(kind) => {
                headers.push((String::from_str("content-type"), String::from_str(kind)));
            },
            None => {},
        }
        headers
    }

    /// Whether a body can be posted to the endpoint.
    pub fn takes_post(&self) -> (posted: bool)
        ensures
            posted == self@.takes_post(),
    {
        match self {
            Endpoint::CreateIndex(..) => true,
            Endpoint::Query(..) => true,
            Endpoint::Upsert(..) => true,
            _ => false,
        }
    }
}

/// Why an answer of the store cannot be used.
#[derive(Clone, Copy, Debug, PartialEq, Eq, Structural)]
pub enum WireError {
    /// The list of indexes is no array.
    NotAnArray,
    /// The description of an index lacks its status.
    NoStatus,
    /// The statistics of an index lack the count of its vectors.
    NoVectorCount,
    /// The answer to a query lacks its matches, or a match lacks its text.
    NoMatches,
}

/// Whether a list holds a name as one of its texts.
pub open spec fn lists(items: Seq<Json>, name: Seq<char>) -> bool {
    exists|at: int| 0 <= at < items.len() && text_of(Some(#[trigger] items[at])) == Some(name)
}

/// Whether an index of a name is among the indexes that the store lists.
pub open spec fn listed(listing: Json, name: Seq<char>) -> Result<bool, WireError> {
    match listing {
        Json::Array(items) => Ok(lists(items@, name)),
        _ => Err(WireError::NotAnArray),
    }
}

/// The state that marks an index which is still being set up.
pub open spec fn initializing() -> Seq<char> {
    "Initializing"@
}

/// Whether the description of an index says that it can be used: it is
/// marked ready, and its state is not that of being set up.
pub open spec fn described_ready(description: Json) -> Result<bool, WireError> {
    match description {
        Json::Object(members) => match member(members@, "status"@) {
            Some(Json::Object(status)) => match (
                member(status@, "ready"@),
                text_of(member(status@, "state"@)),
            ) {
                (Some(Json::Bool(ready)), Some(state)) => Ok(ready && state != initializing()),
                _ => Err(WireError::NoStatus),
            },
            _ => Err(WireError::NoStatus),
        },
        _ => Err(WireError::NoStatus),
    }
}

/// The count of vectors that the statistics of an index give.
pub open spec fn counted(statistics: Json) -> Result<u64, WireError> {
    match statistics {
        Json::Object(members) => match member(members@, "totalVectorCount"@) {
            Some(Json::Number(Some(count))) => Ok(count),
            _ => Err(WireError::NoVectorCount),
        },
        _ => Err(WireError::NoVectorCount),
    }
}

/// The text that a match of a query carries with it.
pub open spec fn match_text(found: Json) -> Option<Seq<char>> {
    match found {
        Json::Object(members) => match member(members@, "metadata"@) {
            Some(Json::Object(metadata)) => text_of(member(metadata@, "raw_text"@)),
            _ => None,
        },
        _ => None,
    }
}

/// The texts of the matches that the answer to a query gives, in the order
/// of the answer, which is from the most to the least similar.
pub open spec fn matched(answer: Json) -> Result<Seq<Seq<char>>, WireError> {
    match answer {
        Json::Object(members) => match member(members@, "matches"@) {
            Some(Json::Array(items)) => if forall|at: int|
                0 <= at < items@.len() ==> match_text(#[trigger] items@[at]) is Some {
                Ok(items@.map_values(|found: Json| match_text(found).unwrap()))
            } else {
                Err(WireError::NoMatches)
            },
            _ => Err(WireError::NoMatches),
        },
        _ => Err(WireError::NoMatches),
    }
}

/// The three names that an answer to "who am I" gives.
pub open spec fn decode_who_am_i(json: Json) -> Option<(Seq<char>, Seq<char>, Seq<char>)> {
    match json {
        Json::Object(members) => match (
            text_of(member(members@, "project_name"@)),
            text_of(member(members@, "user_label"@)),
            text_of(member(members@, "user_name"@)),
        ) {
            (Some(project_name), Some(user_label), Some(user_name)) => Some(
                (project_name, user_label, user_name),
            ),
            _ => None,
        },
        _ => None,
    }
}

impl Index {
    /// How the index is made when it is not there yet.
    pub fn create(&self) -> (parameters: CreateIndexParameters)
        ensures
            parameters.name == self.index_name,
            parameters.dimension == 1536,
            parameters.metric@ == "cosine"@,
            parameters.pods == 1,
            parameters.replicas == 1,
            parameters.pod_type@ == "p1.x1"@,
    {
        CreateIndexParameters {
            name: self.index_name.clone(),
            dimension: 1536,
            metric: String::from_str("cosine"),
            pods: 1,
            replicas: 1,
            pod_type: String::from_str("p1.x1"),
        }
    }

    /// Whether the index is among the indexes that the store lists for the
    /// region. Entries of the list that are no texts are passed over.
    pub fn index_exists(&self, indexes_in_region: &Json) -> (found: Result<bool, WireError>)
        ensures
            found == listed(*indexes_in_region, self.index_name@),
    {
        match indexes_in_region {
            Json::Array(items) => {
                let mut index: usize = 0;
                while index < items.len()
                    invariant
                        index <= items.len(),
                        *indexes_in_region == Json::Array(*items),
                        forall|at: int|
                            0 <= at < index ==> text_of(Some(#[trigger] items@[at])) != Some(
                                self.index_name@,
                            ),
                    decreases items.len() - index,
                {
                    match &items[index] {
                        Json::Text(name) => {
                            if same_text(name.as_str(), self.index_name.as_str()) {
                                return Ok(true);
                            }
                        },
                        _ => {},
                    }
                    index = index + 1;
                }
                Ok(false)
            },
            _ => Err(WireError::NotAnArray),
        }
    }

    /// Whether the description of the index says that it can be used.
    pub fn ready(description: &Json) -> (ready: Result<bool, WireError>)
        ensures
            ready == described_ready(*description),
    {
        match description {
            Json::Object(members) => match find_member(members, "status") {
                Some(Json::Object(status)) => {
                    let state = text_member(status, "state");
                    match (find_member(status, "ready"), state) {
                        (Some(Json::Bool(ready)), Some(state)) => {
                            let initializing = same_text(state.as_str(), "Initializing");
                            Ok(*ready && !initializing)
                        },
                        _ => Err(WireError::NoStatus),
                    }
                },
                _ => Err(WireError::NoStatus),
            },
            _ => Err(WireError::NoStatus),
        }
    }

    /// The count of vectors that the statistics of the index give.
    pub fn get_vector_count(statistics: &Json) -> (count: Result<u64, WireError>)
        ensures
            count == counted(*statistics),
    {
        match statistics {
            Json::Object(members) => match find_member(members, "totalVectorCount") {
                Some(Json::Number(Some(count))) => Ok(*count),
                _ => Err(WireError::NoVectorCount),
            },
            _ => Err(WireError::NoVectorCount),
        }
    }
}

fn text_of_match(found: &Json) -> (text: Option<String>)
    ensures
        match text {
            Some(text) => match_text(*found) == Some(text@),
            None => match_text(*found) is None,
        },
{
    match found {
        Json::Object(members) => match find_member(members, "metadata") {
            Some(Json::Object(metadata)) => text_member(metadata, "raw_text"),
            _ => None,
        },
        _ => None,
    }
}

/// The texts of the matches that the answer to a query gives, the most
/// similar first.
pub fn get_similar_memories(answer: &Json) -> (memories: Result<Vec<String>, WireError>)
    ensures
        match memories {
            Ok(memories) => matched(*answer) == Ok::<Seq<Seq<char>>, WireError>(texts(memories@)),
            Err(error) => matched(*answer) == Err::<Seq<Seq<char>>, WireError>(error),
        },
{
    match answer {
        Json::Object(members) => match find_member(members, "matches") {
            Some(Json::Array(items)) => {
                let mut memories: Vec<String> = Vec::new();
                let mut index: usize = 0;
                while index < items.len()
                    invariant
                        index <= items.len(),
                        memories@.len() == index,
                        member(members@, "matches"@) == Some(Json::Array(*items)),
                        *answer == Json::Object(*members),
                        forall|at: int|
                            0 <= at < index ==> match_text(#[trigger] items@[at]) == Some(
                                memories@[at]@,
                            ),
                    decreases items.len() - index,
                {
                    match text_of_match(&items[index]) {
                        Some(text) => {
                            memories.push(text);
                        },
                        None => {
                            return Err(WireError::NoMatches);
                        },
                    }
                    index = index + 1;
                }
                assert(texts(memories@) =~= items@.map_values(
                    |found: Json| match_text(found).unwrap(),
                ));
                Ok(memories)
            },
            _ => Err(WireError::NoMatches),
        },
        _ => Err(WireError::NoMatches),
    }
}

impl WhoAmIResponse {
    /// Reads the answer to "who am I".
    pub fn from_json(json: &Json) -> (answer: Option<WhoAmIResponse>)
        ensures
            match answer {
                Some(answer) => decode_who_am_i(*json) == Some(
                    (answer.project_name@, answer.user_label@, answer.user_name@),
                ),
                None => decode_who_am_i(*json) is None,
            },
    {
        match json {
            Json::Object(members) => match (
                text_member(members, "project_name"),
                text_member(members, "user_label"),
                text_member(members, "user_name"),
            ) {
                (Some(project_name), Some(user_label), Some(user_name)) => Some(
                    WhoAmIResponse { project_name, user_label, user_name },
                ),
                _ => None,
            },
            _ => None,
        }
    }
}

impl CreateIndexParameters {
    /// The body of the request that makes the index.
    pub fn to_json(&self) -> (json: Json)
        ensures
            json matches Json::Object(members) && members@.len() == 6 && members@[0].0@ == "name"@
                && members@[0].1 == Json::Text(self.name) && members@[1].0@ == "dimension"@
                && members@[1].1 == Json::Number(Some(self.dimension as u64)) && members@[2].0@
                == "metric"@ && members@[2].1 == Json::Text(self.metric) && members@[3].0@
                == "pods"@ && members@[3].1 == Json::Number(Some(self.pods as u64))
                && members@[4].0@ == "replicas"@ && members@[4].1 == Json::Number(
                Some(self.replicas as u64),
            ) && members@[5].0@ == "pod_type"@ && members@[5].1 == Json::Text(self.pod_type),
    {
        let mut members: Vec<(String, Json)> = Vec::new();
        members.push((String::from_str("name"), Json::Text(self.name.clone())));
        members.push((String::from_str("dimension"), Json::Number(Some(self.dimension as u64))));
        members.push((String::from_str("metric"), Json::Text(self.metric.clone())));
        members.push((String::from_str("pods"), Json::Number(Some(self.pods as u64))));
        members.push((String::from_str("replicas"), Json::Number(Some(self.replicas as u64))));
        members.push((String::from_str("pod_type"), Json::Text(self.pod_type.clone())));
        Json::Object(members)
    }
}

} // verus!
