use gel_fivetran::api::Method;
use gel_fivetran::cleanup::{
    cleanup_plan, destination_deletes, destination_deletes_at, is_expired, is_old, is_old_at,
    old_connector_deletes_at, CreatedObjects, MAX_AGE_MICROS,
};
use gel_fivetran::model::{
    ConnectorList, ConnectorResponse, ConnectorStatusResponse, DestinationExtendedResponse,
    DestinationResponse, DestinationSetupStatus, GroupResponse, Region, TimeZoneOffset,
};

const CREATED: &str = "2024-12-01T15:43:29.013729Z";
const CREATED_MICROS: i64 = 1_733_067_809_013_729;
const MINUTE: i64 = 60_000_000;

fn status() -> ConnectorStatusResponse {
    ConnectorStatusResponse {
        update_state: "on_schedule".to_string(),
        setup_state: "connected".to_string(),
        sync_state: "scheduled".to_string(),
        is_historical_sync: false,
        schema_status: None,
        rescheduled_for: None,
    }
}

fn listed(id: &str, created_at: &str) -> ConnectorResponse {
    ConnectorResponse {
        id: id.to_string(),
        service: "postgres".to_string(),
        schema: "gel".to_string(),
        paused: false,
        status: status(),
        sync_frequency: 15,
        group_id: "g".to_string(),
        connected_by: "someone".to_string(),
        created_at: created_at.to_string(),
        pause_after_trial: true,
        schedule_type: "auto".to_string(),
        daily_sync_time: None,
        succeeded_at: None,
        failed_at: None,
    }
}

fn group(id: &str, created_at: &str) -> GroupResponse {
    GroupResponse { id: id.to_string(), name: "test".to_string(), created_at: created_at.to_string() }
}

fn destination(id: &str, group_id: &str) -> DestinationResponse {
    DestinationResponse {
        group_id: group_id.to_string(),
        id: id.to_string(),
        region: Region::GCP_US_EAST4,
        service: "postgres_warehouse".to_string(),
        setup_status: DestinationSetupStatus::Connected,
        time_zone_offset: TimeZoneOffset::utc,
    }
}

fn paths(v: &[gel_fivetran::api::Endpoint]) -> Vec<(Method, String)> {
    v.iter().map(|e| (e.method, e.path.clone())).collect()
}

#[test]
fn fifteen_minutes_is_the_inclusive_boundary() {
    assert!(is_old_at(CREATED, CREATED_MICROS + 15 * MINUTE));
    assert!(is_old_at(CREATED, CREATED_MICROS + 16 * MINUTE));
    assert!(!is_old_at(CREATED, CREATED_MICROS + 14 * MINUTE));
    assert!(!is_old_at(CREATED, CREATED_MICROS + 15 * MINUTE - 1));
    assert!(is_expired(Some(0), MAX_AGE_MICROS));
    assert!(!is_expired(Some(1), MAX_AGE_MICROS));
    assert!(is_expired(Some(i64::MIN), i64::MAX));
    assert!(!is_expired(Some(i64::MAX), i64::MIN));
}

#[test]
fn offsets_and_precision_are_read() {
    // Same instant written with a +02:00 offset.
    assert!(is_old_at("2024-12-01T17:43:29.013729+02:00", CREATED_MICROS + 15 * MINUTE));
    assert!(!is_old_at("2024-12-01T17:43:29.013729+02:00", CREATED_MICROS + 15 * MINUTE - 1));
}

#[test]
fn unparseable_timestamp_is_old() {
    assert!(is_old_at("yesterday", 0));
    assert!(is_old_at("", i64::MIN));
    assert!(is_expired(None, 0));
    assert!(is_old("not a time"));
}

#[test]
fn is_old_uses_the_clock() {
    assert!(is_old("2000-01-01T00:00:00Z"));
    assert!(!is_old("2999-01-01T00:00:00Z"));
}

#[test]
fn connector_sweep_deletes_only_old_ones() {
    let list = ConnectorList {
        items: vec![listed("a", CREATED), listed("b", "2024-12-01T15:50:00Z"), listed("c", "garbage")],
    };
    let plan = old_connector_deletes_at(&list, CREATED_MICROS + 15 * MINUTE);
    assert_eq!(
        paths(&plan),
        vec![
            (Method::Delete, "/v1/connections/a".to_string()),
            (Method::Delete, "/v1/connections/c".to_string()),
        ]
    );
    assert!(old_connector_deletes_at(&ConnectorList { items: vec![] }, 0).is_empty());
}

#[test]
fn destination_sweep_deletes_destination_then_group() {
    let d = destination("dst", "grp");
    let plan = destination_deletes_at(&d, &group("grp", CREATED), CREATED_MICROS + 20 * MINUTE);
    assert_eq!(
        paths(&plan),
        vec![
            (Method::Delete, "/v1/destinations/dst".to_string()),
            (Method::Delete, "/v1/groups/grp".to_string()),
        ]
    );
    assert!(destination_deletes_at(&d, &group("grp", CREATED), CREATED_MICROS).is_empty());
    assert!(destination_deletes(&d, &group("grp", "2999-01-01T00:00:00Z")).is_empty());
}

#[test]
fn teardown_order() {
    let objects = CreatedObjects {
        group: group("grp", CREATED),
        destination: DestinationExtendedResponse {
            id: "dst".to_string(),
            service: "postgres_warehouse".to_string(),
            region: Region::AWS_US_EAST_1,
            setup_status: DestinationSetupStatus::Connected,
            group_id: "grp".to_string(),
            time_zone_offset: TimeZoneOffset::utc,
            daylight_saving_time_enabled: None,
            local_processing_agent_id: None,
            private_link_id: None,
            proxy_agent_id: None,
            hybrid_deployment_agent_id: None,
        },
    };
    let list = ConnectorList { items: vec![listed("c1", CREATED), listed("c2", CREATED)] };
    assert_eq!(
        paths(&cleanup_plan(&objects, &list)),
        vec![
            (Method::Delete, "/v1/connections/c1".to_string()),
            (Method::Delete, "/v1/connections/c2".to_string()),
            (Method::Delete, "/v1/destinations/dst".to_string()),
            (Method::Delete, "/v1/groups/grp".to_string()),
        ]
    );
    assert_eq!(paths(&cleanup_plan(&objects, &ConnectorList { items: vec![] })).len(), 2);
}
