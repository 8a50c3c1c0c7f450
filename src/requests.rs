//! The bodies of the creating and updating requests of one run.
use vstd::prelude::*;
use crate::model::{sync_minutes, NewConnectorRequestV1SyncFrequency, Region, TimeZoneOffset};

verus! {

/// The body that creates a group.
pub struct NewGroupRequest {
    pub name: String,
}

/// How the platform reaches a database.
#[derive(Clone, Copy, PartialEq, Eq, Structural, Debug)]
pub enum ConnectionType {
    Directly,
    PrivateLink,
    ProxyAgent,
    SshTunnel,
}

/// How a Postgres source is read for incremental updates.
#[allow(non_camel_case_types)]
#[derive(Clone, Copy, PartialEq, Eq, Structural, Debug)]
pub enum PostgresConfigV1ConfigUpdateMethod {
    TELEPORT,
    WAL,
    WAL_PGOUTPUT,
    XMIN,
}

/// Connection settings of a Postgres warehouse destination.
pub struct PostgresWarehouseConfigV1Config {
    pub tunnel_port: Option<i64>,
    pub database: Option<String>,
    pub password: Option<String>,
    pub connection_type: Option<ConnectionType>,
    pub port: Option<i64>,
    pub host: Option<String>,
    pub tunnel_host: Option<String>,
    pub always_encrypted: Option<bool>,
    pub user: Option<String>,
    pub tunnel_user: Option<String>,
}

/// The body that creates a Postgres warehouse destination.
pub struct PostgresWarehouseNewDestinationRequest {
    pub group_id: String,
    pub service: String,
    pub time_zone_offset: TimeZoneOffset,
    pub region: Option<Region>,
    pub trust_certificates: Option<bool>,
    pub trust_fingerprints: Option<bool>,
    pub run_setup_tests: Option<bool>,
    pub daylight_saving_time_enabled: Option<bool>,
    pub hybrid_deployment_agent_id: Option<String>,
    pub private_link_id: Option<String>,
    pub proxy_agent_id: Option<String>,
    pub config: PostgresWarehouseConfigV1Config,
}

/// Connection settings of a Postgres source connector.
pub struct PostgresConfigV1Config {
    pub publication_name: Option<String>,
    pub connection_type: Option<ConnectionType>,
    pub update_method: Option<PostgresConfigV1ConfigUpdateMethod>,
    pub always_encrypted: Option<bool>,
    pub tunnel_user: Option<String>,
    pub client_public_certificate: Option<String>,
    pub tunnel_port: Option<u16>,
    pub database: Option<String>,
    pub password: Option<String>,
    pub client_private_key: Option<String>,
    pub port: Option<u16>,
    pub host: Option<String>,
    pub tunnel_host: Option<String>,
    pub entra_tenant_id: Option<String>,
    pub entra_app_id: Option<String>,
    pub replication_slot: Option<String>,
    pub user: Option<String>,
    pub schema_prefix: String,
}

/// The body that creates a Postgres source connector.
pub struct PostgresNewConnectorRequestV1 {
    pub group_id: Option<String>,
    pub service: Option<String>,
    pub trust_certificates: Option<bool>,
    pub trust_fingerprints: Option<bool>,
    pub run_setup_tests: Option<bool>,
    pub paused: Option<bool>,
    pub pause_after_trial: Option<bool>,
    pub sync_frequency: Option<NewConnectorRequestV1SyncFrequency>,
    pub daily_sync_time: Option<String>,
    pub config: PostgresConfigV1Config,
}

/// The body that changes a connector's sync settings.
#[derive(Clone, Copy, PartialEq, Eq, Structural, Debug)]
pub struct UpdateConnectorRequest {
    pub is_historical_sync: bool,
    pub paused: bool,
}

/// Whether `o` holds a string whose text is `s`.
pub open spec fn holds_text(o: Option<String>, s: Seq<char>) -> bool {
    o matches Some(x) && x@ == s
}

/// The body that creates the warehouse destination of group `group_id`,
/// reached directly at `host:port`: every field fixed.
pub open spec fn is_destination_request(
    r: PostgresWarehouseNewDestinationRequest,
    group_id: Seq<char>,
    host: Seq<char>,
    port: u16,
) -> bool {
    &&& r.group_id@ == group_id
    &&& r.service@ == "postgres_warehouse"@
    &&& r.time_zone_offset == TimeZoneOffset::utc
    &&& r.region is None
    &&& r.trust_certificates == Some(true)
    &&& r.trust_fingerprints == Some(true)
    &&& r.run_setup_tests == Some(true)
    &&& r.daylight_saving_time_enabled is None
    &&& r.hybrid_deployment_agent_id is None
    &&& r.private_link_id is None
    &&& r.proxy_agent_id is None
    &&& holds_text(r.config.host, host)
    &&& r.config.port == Some(port as i64)
    &&& holds_text(r.config.user, "username"@)
    &&& holds_text(r.config.password, "pass"@)
    &&& holds_text(r.config.database, "postgres"@)
    &&& r.config.always_encrypted == Some(false)
    &&& r.config.connection_type == Some(ConnectionType::Directly)
    &&& r.config.tunnel_port is None
    &&& r.config.tunnel_host is None
    &&& r.config.tunnel_user is None
}

/// The body that creates the source connector of group `group_id`, reached
/// directly at `host:port`: every field fixed.
pub open spec fn is_connector_request(
    r: PostgresNewConnectorRequestV1,
    group_id: Seq<char>,
    host: Seq<char>,
    port: u16,
) -> bool {
    &&& holds_text(r.group_id, group_id)
    &&& holds_text(r.service, "postgres"@)
    &&& r.trust_certificates == Some(true)
    &&& r.trust_fingerprints == Some(true)
    &&& r.run_setup_tests == Some(true)
    &&& r.paused == Some(true)
    &&& r.pause_after_trial == Some(true)
    &&& r.sync_frequency == Some(NewConnectorRequestV1SyncFrequency::Value15)
    &&& sync_minutes(r.sync_frequency->Some_0) == 15
    &&& r.daily_sync_time is None
    &&& holds_text(r.config.host, host)
    &&& r.config.port == Some(port)
    &&& holds_text(r.config.user, "edgedb"@)
    &&& holds_text(r.config.password, "edgedb"@)
    &&& holds_text(r.config.database, "main"@)
    &&& r.config.update_method == Some(PostgresConfigV1ConfigUpdateMethod::XMIN)
    &&& r.config.connection_type == Some(ConnectionType::Directly)
    &&& r.config.schema_prefix@ == "gel"@
    &&& r.config.publication_name is None
    &&& r.config.always_encrypted is None
    &&& r.config.tunnel_user is None
    &&& r.config.client_public_certificate is None
    &&& r.config.tunnel_port is None
    &&& r.config.client_private_key is None
    &&& r.config.tunnel_host is None
    &&& r.config.entra_tenant_id is None
    &&& r.config.entra_app_id is None
    &&& r.config.replication_slot is None
}

fn some_text(s: &str) -> (r: Option<String>)
    ensures
        holds_text(r, s@),
{
    Some(String::from_str(s))
}

/// The body that names a new group.
pub fn new_group_request(name: String) -> (r: NewGroupRequest)
    ensures
        r.name@ == name@,
{
    NewGroupRequest { name }
}

/// The body that creates the warehouse destination of group `group_id`,
/// reached directly at `host:port`, in UTC, with setup tests run and
/// certificates trusted.
pub fn destination_request(group_id: &str, host: String, port: u16) -> (r:
    PostgresWarehouseNewDestinationRequest)
    ensures
        is_destination_request(r, group_id@, host@, port),
{
    PostgresWarehouseNewDestinationRequest {
        group_id: String::from_str(group_id),
        service: String::from_str("postgres_warehouse"),
        time_zone_offset: TimeZoneOffset::utc,
        region: None,
        trust_certificates: Some(true),
        trust_fingerprints: Some(true),
        run_setup_tests: Some(true),
        daylight_saving_time_enabled: None,
        hybrid_deployment_agent_id: None,
        private_link_id: None,
        proxy_agent_id: None,
        config: PostgresWarehouseConfigV1Config {
            tunnel_port: None,
            database: some_text("postgres"),
            password: some_text("pass"),
            connection_type: Some(ConnectionType::Directly),
            port: Some(port as i64),
            host: Some(host),
            tunnel_host: None,
            always_encrypted: Some(false),
            user: some_text("username"),
            tunnel_user: None,
        },
    }
}

/// The body that creates the Postgres source connector of group `group_id`,
/// reached directly at `host:port` and read by `xmin`. It is created paused,
/// syncs every fifteen minutes and lands under the schema prefix `gel`.
pub fn connector_request(group_id: &str, host: String, port: u16) -> (r:
    PostgresNewConnectorRequestV1)
    ensures
        is_connector_request(r, group_id@, host@, port),
{
    let config = PostgresConfigV1Config {
        publication_name: None,
        connection_type: Some(ConnectionType::Directly),
        update_method: Some(PostgresConfigV1ConfigUpdateMethod::XMIN),
        always_encrypted: None,
        tunnel_user: None,
        client_public_certificate: None,
        tunnel_port: None,
        database: some_text("main"),
        password: some_text("edgedb"),
        client_private_key: None,
        port: Some(port),
        host: Some(host),
        tunnel_host: None,
        entra_tenant_id: None,
        entra_app_id: None,
        replication_slot: None,
        user: some_text("edgedb"),
        schema_prefix: String::from_str("gel"),
    };
    PostgresNewConnectorRequestV1 {
        group_id: some_text(group_id),
        service: some_text("postgres"),
        trust_certificates: Some(true),
        trust_fingerprints: Some(true),
        run_setup_tests: Some(true),
        paused: Some(true),
        pause_after_trial: Some(true),
        sync_frequency: Some(NewConnectorRequestV1SyncFrequency::Value15),
        daily_sync_time: None,
        config,
    }
}

/// The body that unpauses a connector and makes its next sync historical.
pub fn start_sync_request() -> (r: UpdateConnectorRequest)
    ensures
        r == (UpdateConnectorRequest { is_historical_sync: true, paused: false }),
{
    UpdateConnectorRequest { is_historical_sync: true, paused: false }
}

} // verus!
