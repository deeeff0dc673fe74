//! The plain HTTP face of the backend: which request each call is, and how a
//! response is read.  Sending and receiving is the caller's business.

use crate::backend::{classify_status, classify_status_spec, StatusClass};
use crate::error::ErrorClass;
use crate::json::{item_views, member_views, Json, JsonView};
use crate::text::{decimal, join2, join3, render_count, reversed, texts};
use vstd::prelude::*;
use vstd::string::*;

verus! {

/// The HTTP methods the backend is called with.
#[derive(Clone, Copy, Debug, PartialEq, Eq, Structural)]
pub enum Method {
    Get,
    Post,
    Patch,
    Delete,
}

/// A failed call to the backend over HTTP.
#[derive(Clone, Debug, PartialEq, Eq)]
pub enum LettaError {
    /// The request could not be sent or the response could not be read.
    Request(String),
    /// The backend answered with a status that has no class of its own.
    Api { status: u16, message: String },
    /// The backend has nothing at the endpoint.
    NotFound(String),
    /// The backend rejected the request as malformed.
    InvalidRequest(String),
    /// A body was not of the shape the call returns.
    Serialization(String),
    /// The backend rejected the credentials.
    Unauthorized,
}

/// One request to the backend.
#[derive(Debug, PartialEq, Eq)]
pub struct HttpRequest {
    pub method: Method,
    pub url: String,
    pub authorization: String,
    pub body: Option<Json>,
}

/// Which part of a response is to be read, given its status.
#[derive(Clone, Copy, Debug, PartialEq, Eq, Structural)]
pub enum BodyWanted {
    Json,
    Text,
    Nothing,
}

/// What was read of a response's body.
#[derive(Debug, PartialEq, Eq)]
pub enum BodyRead {
    Json(Json),
    Text(String),
    /// Reading failed, for this reason.
    Failed(String),
    Nothing,
}

/// Where the backend is and how to authenticate with it.
#[derive(Clone, Debug, PartialEq, Eq)]
pub struct LettaClient {
    base_url: String,
    password: String,
}

/// Which part of a response is read: the JSON body of a success, the text of
/// a rejected request or of an unclassified status, and nothing otherwise.
pub open spec fn body_wanted_spec(status: u16) -> BodyWanted {
    match classify_status_spec(status) {
        StatusClass::Success => BodyWanted::Json,
        StatusClass::InvalidRequest | StatusClass::Other => BodyWanted::Text,
        _ => BodyWanted::Nothing,
    }
}

/// Which part of a response is to be read.
pub fn body_wanted(status: u16) -> (wanted: BodyWanted)
    ensures
        wanted == body_wanted_spec(status),
{
    match classify_status(status) {
        StatusClass::Success => BodyWanted::Json,
        StatusClass::InvalidRequest | StatusClass::Other => BodyWanted::Text,
        _ => BodyWanted::Nothing,
    }
}

/// Whether `r` is how a response with `status` from `endpoint` is read,
/// given what was read of its body.
pub open spec fn is_response(
    status: u16,
    endpoint: Seq<char>,
    body: BodyRead,
    r: Result<Json, LettaError>,
) -> bool {
    match classify_status_spec(status) {
        StatusClass::Success => match body {
            BodyRead::Json(value) => r == Ok::<Json, LettaError>(value),
            BodyRead::Failed(reason) => r matches Err(LettaError::Request(t)) && t@ == reason@,
            _ => r matches Err(LettaError::Request(t)) && t@ == "response body was not read"@,
        },
        StatusClass::NoContent => r == Ok::<Json, LettaError>(Json::Null),
        StatusClass::NotFound => r matches Err(LettaError::NotFound(t)) && t@ == endpoint,
        StatusClass::InvalidRequest => match body {
            BodyRead::Text(text) => r matches Err(LettaError::InvalidRequest(t)) && t@ == text@,
            BodyRead::Failed(reason) => r matches Err(LettaError::Request(t)) && t@ == reason@,
            _ => r matches Err(LettaError::Request(t)) && t@ == "response body was not read"@,
        },
        StatusClass::Unauthorized => r is Err && r->Err_0 is Unauthorized,
        StatusClass::Other => match body {
            BodyRead::Text(text) => r matches Err(LettaError::Api { status: s, message }) && s
                == status && message@ == text@,
            _ => r matches Err(LettaError::Api { status: s, message }) && s == status && message@
                == "Unknown error"@,
        },
    }
}

/// Reads a response: the JSON of a success, `null` for a success without
/// content, and the error of the status' class otherwise.
pub fn read_response(status: u16, endpoint: &str, body: BodyRead) -> (r: Result<Json, LettaError>)
    ensures
        is_response(status, endpoint@, body, r),
{
    match classify_status(status) {
        StatusClass::Success => match body {
            BodyRead::Json(value) => Ok(value),
            BodyRead::Failed(reason) => Err(LettaError::Request(reason)),
            _ => Err(LettaError::Request(String::from_str("response body was not read"))),
        },
        StatusClass::NoContent => Ok(Json::Null),
        StatusClass::NotFound => Err(LettaError::NotFound(String::from_str(endpoint))),
        StatusClass::InvalidRequest => match body {
            BodyRead::Text(text) => Err(LettaError::InvalidRequest(text)),
            BodyRead::Failed(reason) => Err(LettaError::Request(reason)),
            _ => Err(LettaError::Request(String::from_str("response body was not read"))),
        },
        StatusClass::Unauthorized => Err(LettaError::Unauthorized),
        StatusClass::Other => match body {
            BodyRead::Text(text) => Err(LettaError::Api { status, message: text }),
            _ => Err(LettaError::Api { status, message: String::from_str("Unknown error") }),
        },
    }
}

/// Reads a JSON body as a list.
pub fn expect_list(value: Json) -> (r: Result<Vec<Json>, LettaError>)
    ensures
        match value {
            Json::Array(items) => r == Ok::<Vec<Json>, LettaError>(items),
            _ => r matches Err(LettaError::Serialization(t)) && t@ == "expected a list"@,
        },
{
    match value {
        Json::Array(items) => Ok(items),
        _ => Err(LettaError::Serialization(String::from_str("expected a list"))),
    }
}

impl LettaError {
    /// The sentence of the error.
    pub open spec fn message_spec(self) -> Seq<char> {
        match self {
            LettaError::Request(reason) => "HTTP request failed: "@ + reason@,
            LettaError::Api { status, message } => "API error ("@ + decimal(status as nat) + "): "@
                + message@,
            LettaError::NotFound(what) => "Resource not found: "@ + what@,
            LettaError::InvalidRequest(reason) => "Invalid request: "@ + reason@,
            LettaError::Serialization(reason) => "Serialization error: "@ + reason@,
            LettaError::Unauthorized => "Authentication failed"@,
        }
    }

    /// The class of the error: a missing resource and rejected credentials
    /// are classes of their own, a rejected request is the client's input,
    /// and a failed transport, an unclassified status and an unreadable body
    /// are backend failures.
    pub open spec fn class_spec(self) -> ErrorClass {
        match self {
            LettaError::NotFound(_) => ErrorClass::NotFound,
            LettaError::Unauthorized => ErrorClass::Unauthorized,
            LettaError::InvalidRequest(_) => ErrorClass::ClientInput,
            LettaError::Request(_) => ErrorClass::BackendInternal,
            LettaError::Api { .. } => ErrorClass::BackendInternal,
            LettaError::Serialization(_) => ErrorClass::BackendInternal,
        }
    }

    /// The sentence that the outer protocol carries for the error.
    pub open spec fn protocol_message_spec(self) -> Seq<char> {
        match self {
            LettaError::Request(reason) => "Request failed: "@ + reason@,
            LettaError::Api { status, message } => "API error ("@ + decimal(status as nat) + "): "@
                + message@,
            LettaError::NotFound(what) => "Not found: "@ + what@,
            LettaError::InvalidRequest(reason) => reason@,
            LettaError::Serialization(reason) => "Serialization error: "@ + reason@,
            LettaError::Unauthorized => "Authentication failed"@,
        }
    }

    /// The sentence of the error.
    pub fn message(&self) -> (m: String)
        ensures
            m@ == self.message_spec(),
    {
        match self {
            LettaError::Request(reason) => join2("HTTP request failed: ", reason.as_str()),
            LettaError::Api { status, message } => {
                let mut m = String::from_str("API error (");
                m.append(render_count(*status as u64).as_str());
                m.append("): ");
                m.append(message.as_str());
                m
            },
            LettaError::NotFound(what) => join2("Resource not found: ", what.as_str()),
            LettaError::InvalidRequest(reason) => join2("Invalid request: ", reason.as_str()),
            LettaError::Serialization(reason) => join2("Serialization error: ", reason.as_str()),
            LettaError::Unauthorized => String::from_str("Authentication failed"),
        }
    }

    /// The class of the error.
    pub fn class(&self) -> (c: ErrorClass)
        ensures
            c == self.class_spec(),
    {
        match self {
            LettaError::NotFound(_) => ErrorClass::NotFound,
            LettaError::Unauthorized => ErrorClass::Unauthorized,
            LettaError::InvalidRequest(_) => ErrorClass::ClientInput,
            LettaError::Request(_) => ErrorClass::BackendInternal,
            LettaError::Api { .. } => ErrorClass::BackendInternal,
            LettaError::Serialization(_) => ErrorClass::BackendInternal,
        }
    }

    /// The sentence that the outer protocol carries for the error.
    pub fn protocol_message(&self) -> (m: String)
        ensures
            m@ == self.protocol_message_spec(),
    {
        match self {
            LettaError::Request(reason) => join2("Request failed: ", reason.as_str()),
            LettaError::Api { status, message } => {
                let mut m = String::from_str("API error (");
                m.append(render_count(*status as u64).as_str());
                m.append("): ");
                m.append(message.as_str());
                m
            },
            LettaError::NotFound(what) => join2("Not found: ", what.as_str()),
            LettaError::InvalidRequest(reason) => reason.clone(),
            LettaError::Serialization(reason) => join2("Serialization error: ", reason.as_str()),
            LettaError::Unauthorized => String::from_str("Authentication failed"),
        }
    }
}

/// One member where there is a value, none where there is not.
pub open spec fn member_if(key: Seq<char>, value: Option<JsonView>) -> Seq<(Seq<char>, JsonView)> {
    match value {
        Some(v) => seq![(key, v)],
        None => seq![],
    }
}

/// The model of an optional text as a JSON string.
pub open spec fn text_value(text: Option<String>) -> Option<JsonView> {
    match text {
        Some(t) => Some(JsonView::Str(t@)),
        None => None,
    }
}

/// The model of an optional value.
pub open spec fn json_value(value: Option<Json>) -> Option<JsonView> {
    match value {
        Some(v) => Some(v@),
        None => None,
    }
}

/// The model of an optional list of texts as a JSON array of strings.
pub open spec fn texts_value(list: Option<Vec<String>>) -> Option<JsonView> {
    match list {
        Some(items) => Some(
            JsonView::Array(Seq::new(items@.len(), |i: int| JsonView::Str(items@[i]@))),
        ),
        None => None,
    }
}

/// The model of an optional flag.
pub open spec fn flag_value(flag: Option<bool>) -> Option<JsonView> {
    match flag {
        Some(b) => Some(JsonView::Bool(b)),
        None => None,
    }
}

fn push_if(members: &mut Vec<(String, Json)>, key: &str, value: Option<Json>)
    ensures
        member_views(final(members)@) == member_views(old(members)@) + member_if(
            key@,
            json_value(value),
        ),
{
    match value {
        Some(v) => {
            members.push((String::from_str(key), v));
            assert(member_views(members@) =~= member_views(old(members)@) + member_if(
                key@,
                json_value(value),
            ));
        },
        None => {
            assert(member_views(members@) =~= member_views(old(members)@) + member_if(
                key@,
                json_value(value),
            ));
        },
    }
}

fn strings(items: Vec<String>) -> (list: Json)
    ensures
        list@ == JsonView::Array(Seq::new(items@.len(), |i: int| JsonView::Str(items@[i]@))),
{
    let n = items.len();
    let mut stack = reversed(items);
    let mut values: Vec<Json> = Vec::new();
    while values.len() < n
        invariant
            n == items@.len(),
            values@.len() <= n,
            stack@.len() == n - values@.len(),
            forall|k: int| 0 <= k < stack@.len() ==> stack@[k] == items@[n - 1 - k],
            forall|i: int| 0 <= i < values@.len() ==> (#[trigger] values@[i])@ == JsonView::Str(
                items@[i]@,
            ),
        decreases n - values@.len(),
    {
        let text = stack.pop().unwrap();
        values.push(Json::text(text));
    }
    let list = Json::array(values);
    assert(list@->Array_0 =~= Seq::new(items@.len(), |i: int| JsonView::Str(items@[i]@)));
    list
}

impl LettaClient {
    /// The backend's address.
    pub closed spec fn base_url(self) -> Seq<char> {
        self.base_url@
    }

    /// The credential.
    pub closed spec fn password(self) -> Seq<char> {
        self.password@
    }

    /// Whether `request` is the request for `endpoint` with this client's
    /// address and credential.
    pub open spec fn is_request(
        self,
        request: HttpRequest,
        method: Method,
        endpoint: Seq<char>,
    ) -> bool {
        request.method == method && request.url@ == self.base_url() + endpoint
            && request.authorization@ == "Bearer "@ + self.password()
    }

    /// A client for the backend at `base_url`.
    pub fn new(base_url: String, password: String) -> (client: LettaClient)
        ensures
            client.base_url() == base_url@,
            client.password() == password@,
    {
        LettaClient { base_url, password }
    }

    fn request(&self, method: Method, endpoint: &str, body: Option<Json>) -> (r: HttpRequest)
        ensures
            self.is_request(r, method, endpoint@),
            r.body == body,
    {
        HttpRequest {
            method,
            url: join2(self.base_url.as_str(), endpoint),
            authorization: join2("Bearer ", self.password.as_str()),
            body,
        }
    }

    /// The request that lists agents, a page at a time.
    pub fn list_agents(&self, limit: usize, offset: usize) -> (r: HttpRequest)
        ensures
            self.is_request(
                r,
                Method::Get,
                "/agents?limit="@ + decimal(limit as nat) + "&offset="@ + decimal(offset as nat),
            ),
            r.body is None,
    {
        let mut endpoint = String::from_str("/agents?limit=");
        endpoint.append(render_count(limit as u64).as_str());
        endpoint.append("&offset=");
        endpoint.append(render_count(offset as u64).as_str());
        self.request(Method::Get, endpoint.as_str(), None)
    }

    /// The request that creates an agent.  Only the fields that are given
    /// are sent.
    pub fn create_agent(
        &self,
        name: String,
        system: Option<String>,
        llm_config: Option<Json>,
        embedding_config: Option<Json>,
        tool_ids: Option<Vec<String>>,
    ) -> (r: HttpRequest)
        ensures
            self.is_request(r, Method::Post, "/agents"@),
            r.body is Some,
            r.body->0@ == JsonView::Object(
                seq![("name"@, JsonView::Str(name@))] + member_if("system"@, text_value(system))
                    + member_if("llm_config"@, json_value(llm_config)) + member_if(
                    "embedding_config"@,
                    json_value(embedding_config),
                ) + member_if("tool_ids"@, texts_value(tool_ids)),
            ),
    {
        let mut members: Vec<(String, Json)> = Vec::new();
        members.push((String::from_str("name"), Json::text(name)));
        assert(member_views(members@) =~= seq![("name"@, JsonView::Str(name@))]);
        let system_json = match system {
            Some(s) => Some(Json::text(s)),
            None => None,
        };
        push_if(&mut members, "system", system_json);
        push_if(&mut members, "llm_config", llm_config);
        push_if(&mut members, "embedding_config", embedding_config);
        let tools_json = match tool_ids {
            Some(ids) => Some(strings(ids)),
            None => None,
        };
        push_if(&mut members, "tool_ids", tools_json);
        self.request(Method::Post, "/agents", Some(Json::object(members)))
    }

    /// The request that reads an agent.
    pub fn get_agent(&self, agent_id: &str) -> (r: HttpRequest)
        ensures
            self.is_request(r, Method::Get, "/agents/"@ + agent_id@),
            r.body is None,
    {
        let endpoint = join2("/agents/", agent_id);
        self.request(Method::Get, endpoint.as_str(), None)
    }

    /// The request that updates an agent with the given fields.
    pub fn update_agent(&self, agent_id: String, update_data: Json) -> (r: HttpRequest)
        ensures
            self.is_request(r, Method::Patch, "/agents/"@ + agent_id@),
            r.body == Some(update_data),
    {
        let endpoint = join2("/agents/", agent_id.as_str());
        self.request(Method::Patch, endpoint.as_str(), Some(update_data))
    }

    /// The request that deletes an agent.
    pub fn delete_agent(&self, agent_id: &str) -> (r: HttpRequest)
        ensures
            self.is_request(r, Method::Delete, "/agents/"@ + agent_id@),
            r.body is None,
    {
        let endpoint = join2("/agents/", agent_id);
        self.request(Method::Delete, endpoint.as_str(), None)
    }

    /// The request that sends messages to an agent.
    pub fn send_message(&self, agent_id: String, messages: Vec<Json>, stream: Option<bool>) -> (r:
        HttpRequest)
        ensures
            self.is_request(r, Method::Post, "/agents/"@ + agent_id@ + "/messages"@),
            r.body is Some,
            r.body->0@ == JsonView::Object(
                seq![("messages"@, JsonView::Array(item_views(messages@)))] + member_if(
                    "stream"@,
                    flag_value(stream),
                ),
            ),
    {
        let mut members: Vec<(String, Json)> = Vec::new();
        members.push((String::from_str("messages"), Json::array(messages)));
        assert(member_views(members@) =~= seq![
            ("messages"@, JsonView::Array(item_views(messages@))),
        ]);
        let stream_json = match stream {
            Some(b) => Some(Json::boolean(b)),
            None => None,
        };
        push_if(&mut members, "stream", stream_json);
        let endpoint = join3("/agents/", agent_id.as_str(), "/messages");
        self.request(Method::Post, endpoint.as_str(), Some(Json::object(members)))
    }

    /// The request that lists the memory blocks of an agent.
    pub fn list_memory_blocks(&self, agent_id: &str) -> (r: HttpRequest)
        ensures
            self.is_request(r, Method::Get, "/agents/"@ + agent_id@ + "/memory/blocks"@),
            r.body is None,
    {
        let endpoint = join3("/agents/", agent_id, "/memory/blocks");
        self.request(Method::Get, endpoint.as_str(), None)
    }

    /// The request that creates a memory block.
    pub fn create_memory_block(&self, label: String, value: String) -> (r: HttpRequest)
        ensures
            self.is_request(r, Method::Post, "/blocks"@),
            r.body is Some,
            r.body->0@ == JsonView::Object(
                seq![("label"@, JsonView::Str(label@)), ("value"@, JsonView::Str(value@))],
            ),
    {
        let mut members: Vec<(String, Json)> = Vec::new();
        members.push((String::from_str("label"), Json::text(label)));
        members.push((String::from_str("value"), Json::text(value)));
        assert(member_views(members@) =~= seq![
            ("label"@, JsonView::Str(label@)),
            ("value"@, JsonView::Str(value@)),
        ]);
        self.request(Method::Post, "/blocks", Some(Json::object(members)))
    }

    /// The request that sets the value of a memory block.
    pub fn update_memory_block(&self, block_id: &str, value: String) -> (r: HttpRequest)
        ensures
            self.is_request(r, Method::Patch, "/blocks/"@ + block_id@),
            r.body is Some,
            r.body->0@ == JsonView::Object(seq![("value"@, JsonView::Str(value@))]),
    {
        let mut members: Vec<(String, Json)> = Vec::new();
        members.push((String::from_str("value"), Json::text(value)));
        assert(member_views(members@) =~= seq![("value"@, JsonView::Str(value@))]);
        let endpoint = join2("/blocks/", block_id);
        self.request(Method::Patch, endpoint.as_str(), Some(Json::object(members)))
    }
}

} // verus!
