use gel_fivetran::api::{
    create_connector, create_destination, create_group, delete_connector, delete_destination,
    delete_group, get_connector, get_group, join_path, list_connectors, list_connectors_of_group,
    list_destinations, receive_api_response, receive_api_response_empty,
    receive_api_response_maybe, reload_connector_schema_config, start_sync,
    update_connector_schema_config, ApiError, ApiResponse, Endpoint, Method,
};
use gel_fivetran::model::{NewConnectorRequestV1SyncFrequency, TimeZoneOffset};

fn env<R>(data: Option<R>) -> ApiResponse<R> {
    ApiResponse { code: "Success".to_string(), data, message: None }
}

fn line(e: Endpoint) -> (Method, String) {
    (e.method, e.path)
}

#[test]
fn envelope_outcomes() {
    assert_eq!(receive_api_response(Some(env(Some(7)))).unwrap(), 7);
    assert_eq!(receive_api_response(Some(env::<i32>(None))).unwrap_err(), ApiError::MissingData);
    assert_eq!(receive_api_response::<i32>(None).unwrap_err(), ApiError::Transport);
    assert_eq!(receive_api_response_maybe(Some(env::<i32>(None))).unwrap(), None);
    assert_eq!(receive_api_response_maybe::<i32>(None).unwrap_err(), ApiError::Transport);
    assert!(receive_api_response_empty(Some(env(None))).is_ok());
    assert!(receive_api_response_empty(Some(env(Some(())))).is_ok());
    assert_eq!(receive_api_response_empty(None).unwrap_err(), ApiError::Transport);
}

#[test]
fn endpoint_table() {
    let s = |m: Method, p: &str| (m, p.to_string());
    assert_eq!(line(create_group()), s(Method::Post, "/v1/groups"));
    assert_eq!(line(get_group("g1")), s(Method::Get, "/v1/groups/g1"));
    assert_eq!(line(delete_group("g1")), s(Method::Delete, "/v1/groups/g1"));
    assert_eq!(line(create_destination()), s(Method::Post, "/v1/destinations"));
    assert_eq!(line(list_destinations()), s(Method::Get, "/v1/destinations"));
    assert_eq!(line(delete_destination("d1")), s(Method::Delete, "/v1/destinations/d1"));
    assert_eq!(line(create_connector()), s(Method::Post, "/v1/connections"));
    assert_eq!(line(list_connectors()), s(Method::Get, "/v1/connections"));
    assert_eq!(line(list_connectors_of_group("g1")), s(Method::Get, "/v1/groups/g1/connections"));
    assert_eq!(line(get_connector("c1")), s(Method::Get, "/v1/connections/c1"));
    assert_eq!(line(start_sync("c1")), s(Method::Patch, "/v1/connections/c1"));
    assert_eq!(line(delete_connector("c1")), s(Method::Delete, "/v1/connections/c1"));
    assert_eq!(
        line(reload_connector_schema_config("c1")),
        s(Method::Post, "/v1/connections/c1/schemas/reload")
    );
    assert_eq!(
        line(update_connector_schema_config("c1")),
        s(Method::Patch, "/v1/connections/c1/schemas")
    );
    assert_eq!(join_path("a", "", "c"), "ac");
}

#[test]
fn sync_frequency_round_trip() {
    let f = NewConnectorRequestV1SyncFrequency::Value15;
    assert_eq!(f.minutes(), 15);
    assert_eq!(NewConnectorRequestV1SyncFrequency::from_minutes(15), Some(f));
    assert_eq!(NewConnectorRequestV1SyncFrequency::from_minutes(f.minutes()), Some(f));
    assert_eq!(NewConnectorRequestV1SyncFrequency::Value1440.minutes(), 1440);
    assert_eq!(NewConnectorRequestV1SyncFrequency::from_minutes(16), None);
    assert_eq!(NewConnectorRequestV1SyncFrequency::from_minutes(0), None);
    for m in 0..=1500u16 {
        if let Some(g) = NewConnectorRequestV1SyncFrequency::from_minutes(m) {
            assert_eq!(g.minutes(), m);
        }
    }
}

#[test]
fn time_zone_offsets() {
    assert_eq!(TimeZoneOffset::utc.hours(), 0);
    assert_eq!(TimeZoneOffset::minus_11.hours(), -11);
    assert_eq!(TimeZoneOffset::plus_12.hours(), 12);
}
