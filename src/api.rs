//! The response envelope of the platform's REST API and the table of its
//! endpoints used here: one method and one path per operation.
use vstd::prelude::*;

verus! {

/// The envelope around every response: a status code, an optional payload
/// and an optional message.
pub struct ApiResponse<R> {
    pub code: String,
    pub data: Option<R>,
    pub message: Option<String>,
}

/// Why a call produced no usable result.
#[derive(Clone, Copy, PartialEq, Eq, Structural, Debug)]
pub enum ApiError {
    /// The response body did not decode as an envelope.
    Transport,
    /// The envelope decoded but carried no payload where one was expected.
    MissingData,
}

/// The payload of a response that may legitimately carry none. `decoded` is
/// `None` where the body did not decode as an envelope.
pub fn receive_api_response_maybe<R>(decoded: Option<ApiResponse<R>>) -> (r: Result<
    Option<R>,
    ApiError,
>)
    ensures
        match decoded {
            None => r == Err::<Option<R>, ApiError>(ApiError::Transport),
            Some(env) => r == Ok::<Option<R>, ApiError>(env.data),
        },
{
    match decoded {
        None => Err(ApiError::Transport),
        Some(env) => Ok(env.data),
    }
}

/// The payload of a response that must carry one.
pub fn receive_api_response<R>(decoded: Option<ApiResponse<R>>) -> (r: Result<R, ApiError>)
    ensures
        match decoded {
            None => r == Err::<R, ApiError>(ApiError::Transport),
            Some(env) => match env.data {
                Some(d) => r == Ok::<R, ApiError>(d),
                None => r == Err::<R, ApiError>(ApiError::MissingData),
            },
        },
{
    match receive_api_response_maybe(decoded) {
        Err(e) => Err(e),
        Ok(Some(d)) => Ok(d),
        Ok(None) => Err(ApiError::MissingData),
    }
}

/// The outcome of a call whose payload is ignored, such as a delete: only an
/// undecodable body fails.
pub fn receive_api_response_empty(decoded: Option<ApiResponse<()>>) -> (r: Result<(), ApiError>)
    ensures
        r is Err <==> decoded is None,
        r is Err ==> r == Err::<(), ApiError>(ApiError::Transport),
{
    match receive_api_response_maybe(decoded) {
        Err(e) => Err(e),
        Ok(_) => Ok(()),
    }
}

/// An HTTP method.
#[derive(Clone, Copy, PartialEq, Eq, Structural, Debug)]
pub enum Method {
    Get,
    Post,
    Patch,
    Delete,
}

/// One request line: a method and a path below the API's base address.
pub struct Endpoint {
    pub method: Method,
    pub path: String,
}

/// `prefix + id + suffix`.
pub fn join_path(prefix: &str, id: &str, suffix: &str) -> (r: String)
    ensures
        r@ == prefix@ + id@ + suffix@,
{
    let mut p = String::from_str(prefix);
    p.append(id);
    p.append(suffix);
    p
}

pub open spec fn groups_path() -> Seq<char> {
    "/v1/groups"@
}

pub open spec fn group_path(id: Seq<char>) -> Seq<char> {
    "/v1/groups/"@ + id
}

pub open spec fn group_connections_path(id: Seq<char>) -> Seq<char> {
    "/v1/groups/"@ + id + "/connections"@
}

pub open spec fn destinations_path() -> Seq<char> {
    "/v1/destinations"@
}

pub open spec fn destination_path(id: Seq<char>) -> Seq<char> {
    "/v1/destinations/"@ + id
}

pub open spec fn connections_path() -> Seq<char> {
    "/v1/connections"@
}

pub open spec fn connection_path(id: Seq<char>) -> Seq<char> {
    "/v1/connections/"@ + id
}

pub open spec fn schemas_reload_path(id: Seq<char>) -> Seq<char> {
    "/v1/connections/"@ + id + "/schemas/reload"@
}

pub open spec fn schemas_path(id: Seq<char>) -> Seq<char> {
    "/v1/connections/"@ + id + "/schemas"@
}

/// Whether `e` is the request line `method path`.
pub open spec fn is_request(e: Endpoint, method: Method, path: Seq<char>) -> bool {
    e.method == method && e.path@ == path
}

/// `POST /v1/groups`: creates a group.
pub fn create_group() -> (r: Endpoint)
    ensures
        is_request(r, Method::Post, groups_path()),
{
    Endpoint { method: Method::Post, path: String::from_str("/v1/groups") }
}

/// `GET /v1/groups/{id}`: reads a group.
pub fn get_group(group_id: &str) -> (r: Endpoint)
    ensures
        is_request(r, Method::Get, group_path(group_id@)),
{
    let path = join_path("/v1/groups/", group_id, "");
    proof {
        reveal_strlit("");
    }
    assert(path@ =~= group_path(group_id@));
    Endpoint { method: Method::Get, path }
}

/// `DELETE /v1/groups/{id}`: deletes a group.
pub fn delete_group(group_id: &str) -> (r: Endpoint)
    ensures
        is_request(r, Method::Delete, group_path(group_id@)),
{
    let path = join_path("/v1/groups/", group_id, "");
    proof {
        reveal_strlit("");
    }
    assert(path@ =~= group_path(group_id@));
    Endpoint { method: Method::Delete, path }
}

/// `POST /v1/destinations`: creates a destination.
pub fn create_destination() -> (r: Endpoint)
    ensures
        is_request(r, Method::Post, destinations_path()),
{
    Endpoint { method: Method::Post, path: String::from_str("/v1/destinations") }
}

/// `GET /v1/destinations`: lists every destination of the account.
pub fn list_destinations() -> (r: Endpoint)
    ensures
        is_request(r, Method::Get, destinations_path()),
{
    Endpoint { method: Method::Get, path: String::from_str("/v1/destinations") }
}

/// `DELETE /v1/destinations/{id}`: deletes a destination.
pub fn delete_destination(destination_id: &str) -> (r: Endpoint)
    ensures
        is_request(r, Method::Delete, destination_path(destination_id@)),
{
    let path = join_path("/v1/destinations/", destination_id, "");
    proof {
        reveal_strlit("");
    }
    assert(path@ =~= destination_path(destination_id@));
    Endpoint { method: Method::Delete, path }
}

/// `POST /v1/connections`: creates a connector.
pub fn create_connector() -> (r: Endpoint)
    ensures
        is_request(r, Method::Post, connections_path()),
{
    Endpoint { method: Method::Post, path: String::from_str("/v1/connections") }
}

/// `GET /v1/connections`: lists every connector of the account.
pub fn list_connectors() -> (r: Endpoint)
    ensures
        is_request(r, Method::Get, connections_path()),
{
    Endpoint { method: Method::Get, path: String::from_str("/v1/connections") }
}

/// `GET /v1/groups/{id}/connections`: lists the connectors of a group.
pub fn list_connectors_of_group(group_id: &str) -> (r: Endpoint)
    ensures
        is_request(r, Method::Get, group_connections_path(group_id@)),
{
    let path = join_path("/v1/groups/", group_id, "/connections");
    Endpoint { method: Method::Get, path }
}

/// `GET /v1/connections/{id}`: reads a connector.
pub fn get_connector(connection_id: &str) -> (r: Endpoint)
    ensures
        is_request(r, Method::Get, connection_path(connection_id@)),
{
    let path = join_path("/v1/connections/", connection_id, "");
    proof {
        reveal_strlit("");
    }
    assert(path@ =~= connection_path(connection_id@));
    Endpoint { method: Method::Get, path }
}

/// `PATCH /v1/connections/{id}`: changes a connector's settings; with a
/// historical-sync body it starts a full sync.
pub fn start_sync(connection_id: &str) -> (r: Endpoint)
    ensures
        is_request(r, Method::Patch, connection_path(connection_id@)),
{
    let path = join_path("/v1/connections/", connection_id, "");
    proof {
        reveal_strlit("");
    }
    assert(path@ =~= connection_path(connection_id@));
    Endpoint { method: Method::Patch, path }
}

/// `DELETE /v1/connections/{id}`: deletes a connector.
pub fn delete_connector(connector_id: &str) -> (r: Endpoint)
    ensures
        is_request(r, Method::Delete, connection_path(connector_id@)),
{
    let path = join_path("/v1/connections/", connector_id, "");
    proof {
        reveal_strlit("");
    }
    assert(path@ =~= connection_path(connector_id@));
    Endpoint { method: Method::Delete, path }
}

/// `POST /v1/connections/{id}/schemas/reload`: rediscovers a connector's
/// source schema.
pub fn reload_connector_schema_config(connection_id: &str) -> (r: Endpoint)
    ensures
        is_request(r, Method::Post, schemas_reload_path(connection_id@)),
{
    let path = join_path("/v1/connections/", connection_id, "/schemas/reload");
    Endpoint { method: Method::Post, path }
}

/// `PATCH /v1/connections/{id}/schemas`: submits a connector's schema tree.
pub fn update_connector_schema_config(connection_id: &str) -> (r: Endpoint)
    ensures
        is_request(r, Method::Patch, schemas_path(connection_id@)),
{
    let path = join_path("/v1/connections/", connection_id, "/schemas");
    Endpoint { method: Method::Patch, path }
}

} // verus!
