use gel_fivetran::model::{
    ConnectorResponseV1, ConnectorStatusResponse, NewConnectorRequestV1SyncFrequency,
};
use gel_fivetran::wait::{setup_poll, sync_poll, SetupPoll, SyncOutcome, SyncPoll, POLL_INTERVAL_SECS};

fn connector(setup_state: &str, succeeded_at: Option<&str>, failed_at: Option<&str>) -> ConnectorResponseV1 {
    ConnectorResponseV1 {
        id: "conn_1".to_string(),
        service: "postgres".to_string(),
        schema: "gel".to_string(),
        paused: false,
        status: ConnectorStatusResponse {
            update_state: "on_schedule".to_string(),
            setup_state: setup_state.to_string(),
            sync_state: "scheduled".to_string(),
            is_historical_sync: true,
            schema_status: None,
            rescheduled_for: None,
        },
        sync_frequency: NewConnectorRequestV1SyncFrequency::Value15,
        group_id: "group_1".to_string(),
        service_version: 1,
        created_at: "2024-12-01T15:43:29.013729Z".to_string(),
        pause_after_trial: true,
        schedule_type: "auto".to_string(),
        daily_sync_time: None,
        succeeded_at: succeeded_at.map(|s| s.to_string()),
        connected_by: None,
        failed_at: failed_at.map(|s| s.to_string()),
        private_link_id: None,
        proxy_agent_id: None,
        hybrid_deployment_agent_id: None,
    }
}

/// Fetches records from `feed` until the setup step says connected, at most
/// `cap` times; returns the number of fetches and the final record.
fn drive_setup(feed: &[ConnectorResponseV1], cap: usize) -> Option<(usize, &ConnectorResponseV1)> {
    for (i, c) in feed.iter().take(cap).enumerate() {
        match setup_poll(c) {
            SetupPoll::Connected => return Some((i + 1, c)),
            SetupPoll::Retry { delay_secs } => assert_eq!(delay_secs, 10),
        }
    }
    None
}

#[test]
fn setup_wait_stops_at_third_fetch() {
    let feed = vec![
        connector("incomplete", None, None),
        connector("incomplete", None, None),
        connector("connected", None, None),
    ];
    let (fetches, record) = drive_setup(&feed, 100).unwrap();
    assert_eq!(fetches, 3);
    assert_eq!(record.status.setup_state, "connected");
}

#[test]
fn setup_wait_never_ends_on_incomplete_or_broken() {
    let mut feed: Vec<ConnectorResponseV1> = (0..50).map(|_| connector("incomplete", None, None)).collect();
    feed.push(connector("broken", None, None));
    assert!(drive_setup(&feed, 51).is_none());
    assert_eq!(
        setup_poll(&connector("broken", None, None)),
        SetupPoll::Retry { delay_secs: POLL_INTERVAL_SECS }
    );
}

#[test]
fn sync_wait_reports_failure() {
    let feed = vec![
        connector("connected", None, None),
        connector("connected", None, Some("2024-12-01T16:00:00Z")),
    ];
    let mut outcome = None;
    for c in &feed {
        match sync_poll(c) {
            SyncPoll::Finished(o) => {
                outcome = Some(o);
                break;
            }
            SyncPoll::Retry { delay_secs } => assert_eq!(delay_secs, 10),
        }
    }
    assert_eq!(outcome, Some(SyncOutcome::Failed));
}

#[test]
fn sync_wait_success_and_running() {
    assert_eq!(
        sync_poll(&connector("connected", Some("2024-12-01T16:00:00Z"), None)),
        SyncPoll::Finished(SyncOutcome::Succeeded)
    );
    assert_eq!(
        sync_poll(&connector("connected", None, None)),
        SyncPoll::Retry { delay_secs: 10 }
    );
}
