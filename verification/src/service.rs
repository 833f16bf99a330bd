use vstd::prelude::*;
use crate::text::join2;

verus! {

/// The HTTP methods the variable endpoints answer to.
#[derive(Debug, PartialEq, Eq, Structural, Clone, Copy)]
pub enum HttpMethod {
    Get,
    Post,
    Delete,
}

/// The variable endpoints.
#[derive(Debug, PartialEq, Eq, Structural, Clone, Copy)]
pub enum Endpoint {
    List,
    ListContextual,
    Get,
    GetValue,
    Exists,
    Update,
    Delete,
    Create,
    Encrypt,
}

/// One route: the method and path pattern that lead to an endpoint.
#[derive(Debug, PartialEq)]
pub struct Route {
    pub method: HttpMethod,
    pub pattern: String,
    pub endpoint: Endpoint,
}

/// The routes of the workspace's variable service, in order.
pub open spec fn route_table() -> Seq<(HttpMethod, Seq<char>, Endpoint)> {
    seq![
        (HttpMethod::Get, "/list"@, Endpoint::List),
        (HttpMethod::Get, "/list_contextual"@, Endpoint::ListContextual),
        (HttpMethod::Get, "/get/*path"@, Endpoint::Get),
        (HttpMethod::Get, "/get_value/*path"@, Endpoint::GetValue),
        (HttpMethod::Get, "/exists/*path"@, Endpoint::Exists),
        (HttpMethod::Post, "/update/*path"@, Endpoint::Update),
        (HttpMethod::Delete, "/delete/*path"@, Endpoint::Delete),
        (HttpMethod::Post, "/create"@, Endpoint::Create),
        (HttpMethod::Post, "/encrypt"@, Endpoint::Encrypt),
    ]
}

fn route(method: HttpMethod, pattern: &str, endpoint: Endpoint) -> (r: Route)
    ensures
        r.method == method,
        r.pattern@ == pattern@,
        r.endpoint == endpoint,
{
    Route { method, pattern: String::from_str(pattern), endpoint }
}

/// The routes of the workspace's variable service.
pub fn workspaced_service() -> (r: Vec<Route>)
    ensures
        r@.map_values(|x: Route| (x.method, x.pattern@, x.endpoint)) == route_table(),
{
    let mut r: Vec<Route> = Vec::new();
    r.push(route(HttpMethod::Get, "/list", Endpoint::List));
    r.push(route(HttpMethod::Get, "/list_contextual", Endpoint::ListContextual));
    r.push(route(HttpMethod::Get, "/get/*path", Endpoint::Get));
    r.push(route(HttpMethod::Get, "/get_value/*path", Endpoint::GetValue));
    r.push(route(HttpMethod::Get, "/exists/*path", Endpoint::Exists));
    r.push(route(HttpMethod::Post, "/update/*path", Endpoint::Update));
    r.push(route(HttpMethod::Delete, "/delete/*path", Endpoint::Delete));
    r.push(route(HttpMethod::Post, "/create", Endpoint::Create));
    r.push(route(HttpMethod::Post, "/encrypt", Endpoint::Encrypt));
    assert(r@.map_values(|x: Route| (x.method, x.pattern@, x.endpoint)) =~= route_table());
    r
}

/// What the listing query is bound with.
#[derive(Debug, PartialEq)]
pub struct ListQuery {
    /// The caller, whose secret arguments are left out.
    pub username: String,
    /// Only paths that begin with this are listed.
    pub path_start: String,
    pub limit: i32,
    pub offset: i32,
}

/// The bindings of the listing query for a page of `per_page` rows from
/// `offset` on; without a start, every path is listed.
pub fn list_variables(username: String, path_start: Option<String>, per_page: usize, offset: usize) -> (q: ListQuery)
    ensures
        q.username == username,
        q.path_start@ == (match path_start { Some(s) => s@, None => Seq::empty() }),
        q.limit == per_page as i32,
        q.offset == offset as i32,
{
    let start = match path_start {
        Some(s) => s,
        None => String::new(),
    };
    ListQuery { username, path_start: start, limit: per_page as i32, offset: offset as i32 }
}

/// The example job context under which the contextual variables are listed
/// for a user.
#[derive(Debug, PartialEq)]
pub struct ContextualContext {
    pub token: String,
    pub job_id: String,
    pub permissioned_as: String,
    pub script_path: Option<String>,
    pub flow_job_id: Option<String>,
    pub flow_path: Option<String>,
    pub triggering_flow_path: Option<String>,
    pub flow_step_id: Option<String>,
    pub root_flow_job_id: Option<String>,
}

pub open spec fn example_job_id() -> Seq<char> {
    "017e0ad5-f499-73b6-5488-92a61c5196dd"@
}

/// The example context for `username`: placeholders for the token and the
/// jobs, the user's own path as the permission.
pub fn list_contextual_variables(username: &str) -> (c: ContextualContext)
    ensures
        c.token@ == "q1A0qcPuO00yxioll7iph76N9CJDqn"@,
        c.job_id@ == example_job_id(),
        c.permissioned_as@ == "u/"@ + username@,
        c.script_path matches Some(s) && s@ == "u/user/script_path"@,
        c.flow_job_id matches Some(s) && s@ == example_job_id(),
        c.flow_path matches Some(s) && s@ == "u/user/encapsulating_flow_path"@,
        c.triggering_flow_path matches Some(s) && s@ == "u/user/triggering_flow_path"@,
        c.flow_step_id matches Some(s) && s@ == "c"@,
        c.root_flow_job_id matches Some(s) && s@ == example_job_id(),
{
    ContextualContext {
        token: String::from_str("q1A0qcPuO00yxioll7iph76N9CJDqn"),
        job_id: String::from_str("017e0ad5-f499-73b6-5488-92a61c5196dd"),
        permissioned_as: join2("u/", username),
        script_path: Some(String::from_str("u/user/script_path")),
        flow_job_id: Some(String::from_str("017e0ad5-f499-73b6-5488-92a61c5196dd")),
        flow_path: Some(String::from_str("u/user/encapsulating_flow_path")),
        triggering_flow_path: Some(String::from_str("u/user/triggering_flow_path")),
        flow_step_id: Some(String::from_str("c")),
        root_flow_job_id: Some(String::from_str("017e0ad5-f499-73b6-5488-92a61c5196dd")),
    }
}

} // verus!
