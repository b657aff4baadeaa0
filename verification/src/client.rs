//! The typed client of the CWE API: one method per endpoint, each giving the
//! request that the endpoint takes, and the reading of what the service
//! answers.

use crate::json::{from_str, parsed_json};
use crate::path::{encode_path, path_segment};
use serde_json::Value as JsonValue;
use vstd::prelude::*;
use vstd::string::*;

verus! {

/// The base URL of the CWE API.
pub const BASE_URL: &'static str = "https://cwe-api.mitre.org/api/v1";

/// One `name=value` pair of a query string, not yet encoded.
#[derive(Debug, Clone, PartialEq, Eq)]
pub struct QueryParam {
    pub name: String,
    pub value: String,
}

/// A GET request to the service.
#[derive(Debug, Clone, PartialEq, Eq)]
pub struct Request {
    /// The URL up to the query string.
    pub url: String,
    /// The query parameters, in the order in which they are sent.
    pub query: Vec<QueryParam>,
}

/// A request as plain text.
pub struct RequestView {
    pub url: Seq<char>,
    pub query: Seq<(Seq<char>, Seq<char>)>,
}

impl View for Request {
    type V = RequestView;

    open spec fn view(&self) -> RequestView {
        RequestView {
            url: self.url@,
            query: self.query@.map_values(|p: QueryParam| (p.name@, p.value@)),
        }
    }
}

/// The text of a string that may be absent.
pub open spec fn text_of(text: Option<&str>) -> Option<Seq<char>> {
    match text {
        Some(t) => Some(t@),
        None => None,
    }
}

/// The query of a call that takes an optional view filter.
pub open spec fn view_query(view: Option<Seq<char>>) -> Seq<(Seq<char>, Seq<char>)> {
    match view {
        Some(v) => seq![("view"@, v)],
        None => Seq::empty(),
    }
}

/// The query of a call that takes an optional primary-ancestor flag.
pub open spec fn primary_query(primary: Option<bool>) -> Seq<(Seq<char>, Seq<char>)> {
    match primary {
        Some(true) => seq![("primary"@, "true"@)],
        Some(false) => seq![("primary"@, "false"@)],
        None => Seq::empty(),
    }
}

/// `GET {base}/cwe/version`: the version of the CWE content.
pub open spec fn version_request(base: Seq<char>) -> RequestView {
    RequestView { url: base + "/cwe/version"@, query: Seq::empty() }
}

/// `GET {base}{prefix}{id}`: one entry, or several where `id` lists them.
pub open spec fn entry_request(base: Seq<char>, prefix: Seq<char>, id: Seq<char>) -> RequestView {
    RequestView { url: base + prefix + path_segment(id), query: Seq::empty() }
}

/// `GET {base}/cwe/{id}/{relation}`: the relatives of a CWE, where `relation`
/// is one of `parents`, `descendants`, `children` and `ancestors`.
pub open spec fn relatives_request(
    base: Seq<char>,
    id: Seq<char>,
    relation: Seq<char>,
    query: Seq<(Seq<char>, Seq<char>)>,
) -> RequestView {
    RequestView { url: base + "/cwe/"@ + path_segment(id) + "/"@ + relation, query }
}

/// The client of the CWE API.
#[derive(Debug, Clone)]
pub struct Client {
    pub baseurl: String,
}

impl Client {
    /// A client of the service at `baseurl`.
    pub fn new(baseurl: &str) -> (client: Client)
        ensures
            client.baseurl@ == baseurl@,
    {
        Client { baseurl: String::from_str(baseurl) }
    }

    /// The base URL to which request paths are appended.
    pub fn baseurl(&self) -> (baseurl: &String)
        ensures
            baseurl@ == self.baseurl@,
    {
        &self.baseurl
    }

    /// The request for the version of the CWE content that the service holds.
    pub fn get_cwe(&self) -> (request: Request)
        ensures
            request@ == version_request(self.baseurl@),
    {
        let url = self.baseurl.clone().concat("/cwe/version");
        let request = Request { url, query: Vec::new() };
        assert(request@.query =~= Seq::empty());
        request
    }

    /// The request for the kind of entry behind an identifier.
    pub fn get_cwe_info(&self, id: &str) -> (request: Request)
        ensures
            request@ == entry_request(self.baseurl@, "/cwe/"@, id@),
    {
        self.entry("/cwe/", id)
    }

    /// The request for the parents of a CWE, in one view or in all.
    pub fn get_cwe_parents(&self, id: &str, view: Option<&str>) -> (request: Request)
        ensures
            request@ == relatives_request(
                self.baseurl@,
                id@,
                "parents"@,
                view_query(text_of(view)),
            ),
    {
        let mut query: Vec<QueryParam> = Vec::new();
        push_view(&mut query, view);
        self.relatives(id, "parents", query)
    }

    /// The request for the descendants of a CWE, in one view or in all.
    pub fn get_cwe_descendants(&self, id: &str, view: Option<&str>) -> (request: Request)
        ensures
            request@ == relatives_request(
                self.baseurl@,
                id@,
                "descendants"@,
                view_query(text_of(view)),
            ),
    {
        let mut query: Vec<QueryParam> = Vec::new();
        push_view(&mut query, view);
        self.relatives(id, "descendants", query)
    }

    /// The request for the children of a CWE, in one view or in all.
    pub fn get_cwe_children(&self, id: &str, view: Option<&str>) -> (request: Request)
        ensures
            request@ == relatives_request(
                self.baseurl@,
                id@,
                "children"@,
                view_query(text_of(view)),
            ),
    {
        let mut query: Vec<QueryParam> = Vec::new();
        push_view(&mut query, view);
        self.relatives(id, "children", query)
    }

    /// The request for the ancestors of a CWE, in one view or in all, and
    /// along primary parents only where `primary` says so.
    pub fn get_cwe_ancestors(&self, id: &str, primary: Option<bool>, view: Option<&str>) -> (request:
        Request)
        ensures
            request@ == relatives_request(
                self.baseurl@,
                id@,
                "ancestors"@,
                primary_query(primary) + view_query(text_of(view)),
            ),
    {
        let mut query: Vec<QueryParam> = Vec::new();
        match primary {
            Some(flag) => {
                let value = if flag {
                    "true"
                } else {
                    "false"
                };
                query.push(
                    QueryParam { name: String::from_str("primary"), value: String::from_str(value) },
                );
            },
            None => {},
        }
        assert(query@.map_values(|p: QueryParam| (p.name@, p.value@)) =~= primary_query(primary));
        push_view(&mut query, view);
        self.relatives(id, "ancestors", query)
    }

    /// The request for a weakness.
    pub fn get_cwe_weakness(&self, id: &str) -> (request: Request)
        ensures
            request@ == entry_request(self.baseurl@, "/cwe/weakness/"@, id@),
    {
        self.entry("/cwe/weakness/", id)
    }

    /// The request for a view.
    pub fn get_cwe_view(&self, id: &str) -> (request: Request)
        ensures
            request@ == entry_request(self.baseurl@, "/cwe/view/"@, id@),
    {
        self.entry("/cwe/view/", id)
    }

    /// The request for a category.
    pub fn get_cwe_category(&self, id: &str) -> (request: Request)
        ensures
            request@ == entry_request(self.baseurl@, "/cwe/category/"@, id@),
    {
        self.entry("/cwe/category/", id)
    }

    /// A request without a query, for the entry `id` below `prefix`.
    fn entry(&self, prefix: &str, id: &str) -> (request: Request)
        ensures
            request@ == entry_request(self.baseurl@, prefix@, id@),
    {
        let segment = encode_path(id);
        let url = self.baseurl.clone().concat(prefix).concat(segment.as_str());
        let request = Request { url, query: Vec::new() };
        assert(request@.query =~= Seq::empty());
        request
    }

    /// A request for the relatives of `id`, with a query made beforehand.
    fn relatives(&self, id: &str, relation: &str, query: Vec<QueryParam>) -> (request: Request)
        ensures
            request@ == relatives_request(
                self.baseurl@,
                id@,
                relation@,
                query@.map_values(|p: QueryParam| (p.name@, p.value@)),
            ),
    {
        let segment = encode_path(id);
        let url = self.baseurl.clone().concat("/cwe/").concat(segment.as_str()).concat("/").concat(
            relation,
        );
        Request { url, query }
    }
}

/// Why an answer of the service gives no value.
#[derive(Debug)]
pub enum ApiError {
    /// The service answered with a status outside the 2xx range.
    Status { status: u16, body: String },
    /// The body of a successful answer is not JSON.
    InvalidPayload(serde_json::Error),
}

/// Whether a status code says that the request succeeded.
pub open spec fn is_success(status: u16) -> bool {
    200 <= status < 300
}

/// What an answer of the service gives: the value that its body stands for
/// where the status is a success, and an error that keeps status and body
/// where it is not.
pub open spec fn interpreted(status: u16, body: Seq<char>, result: Result<JsonValue, ApiError>) -> bool {
    if is_success(status) {
        match parsed_json(body) {
            Some(value) => result == Ok::<JsonValue, ApiError>(value),
            None => result matches Err(ApiError::InvalidPayload(_)),
        }
    } else {
        result matches Err(ApiError::Status { status: s, body: b }) && s == status && b@ == body
    }
}

/// Reads an answer of the service.
pub fn interpret_response(status: u16, body: &str) -> (result: Result<JsonValue, ApiError>)
    ensures
        interpreted(status, body@, result),
{
    if 200 <= status && status < 300 {
        payload_outcome(from_str(body))
    } else {
        Err(ApiError::Status { status, body: String::from_str(body) })
    }
}

/// The value or error that follows from reading the body of a successful answer.
pub fn payload_outcome(payload: Result<JsonValue, serde_json::Error>) -> (result: Result<
    JsonValue,
    ApiError,
>)
    ensures
        match payload {
            Ok(value) => result == Ok::<JsonValue, ApiError>(value),
            Err(error) => result matches Err(ApiError::InvalidPayload(e)) && e == error,
        },
{
    match payload {
        Ok(value) => Ok(value),
        Err(error) => Err(ApiError::InvalidPayload(error)),
    }
}

/// Appends the view filter to a query, where there is one.
fn push_view(query: &mut Vec<QueryParam>, view: Option<&str>)
    ensures
        final(query)@.map_values(|p: QueryParam| (p.name@, p.value@)) == old(query)@.map_values(
            |p: QueryParam| (p.name@, p.value@),
        ) + view_query(text_of(view)),
{
    match view {
        Some(v) => {
            query.push(QueryParam { name: String::from_str("view"), value: String::from_str(v) });
        },
        None => {},
    }
    assert(query@.map_values(|p: QueryParam| (p.name@, p.value@)) =~= old(query)@.map_values(
        |p: QueryParam| (p.name@, p.value@),
    ) + view_query(text_of(view)));
}

} // verus!
