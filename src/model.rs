//! The records the platform returns and the closed enumerations of its API.
use vstd::prelude::*;

verus! {

/// A provisioning namespace.
pub struct GroupResponse {
    pub id: String,
    pub name: String,
    pub created_at: String,
}

/// A cloud region of the platform.
#[allow(non_camel_case_types)]
#[derive(Clone, Copy, PartialEq, Eq, Structural, Debug)]
pub enum Region {
    AWS_AP_NORTHEAST_1,
    AWS_AP_SOUTHEAST_1,
    AWS_AP_SOUTHEAST_2,
    AWS_AP_SOUTH_1,
    AWS_CA_CENTRAL_1,
    AWS_EU_CENTRAL_1,
    AWS_EU_WEST_1,
    AWS_EU_WEST_2,
    AWS_US_EAST_1,
    AWS_US_EAST_2,
    AWS_US_GOV_WEST_1,
    AWS_US_WEST_2,
    AZURE_AUSTRALIAEAST,
    AZURE_CANADACENTRAL,
    AZURE_CENTRALINDIA,
    AZURE_CENTRALUS,
    AZURE_EASTUS,
    AZURE_EASTUS2,
    AZURE_JAPANEAST,
    AZURE_SOUTHEASTASIA,
    AZURE_UAENORTH,
    AZURE_UKSOUTH,
    AZURE_WESTEUROPE,
    GCP_ASIA_NORTHEAST1,
    GCP_ASIA_SOUTH1,
    GCP_ASIA_SOUTHEAST1,
    GCP_ASIA_SOUTHEAST2,
    GCP_AUSTRALIA_SOUTHEAST1,
    GCP_EUROPE_WEST2,
    GCP_EUROPE_WEST3,
    GCP_NORTHAMERICA_NORTHEAST1,
    GCP_US_CENTRAL1,
    GCP_US_EAST4,
    GCP_US_WEST1,
}

/// A time-zone offset from UTC in whole hours, from -11 to +12.
#[allow(non_camel_case_types)]
#[derive(Clone, Copy, PartialEq, Eq, Structural, Debug)]
pub enum TimeZoneOffset {
    minus_11,
    minus_10,
    minus_9,
    minus_8,
    minus_7,
    minus_6,
    minus_5,
    minus_4,
    minus_3,
    minus_2,
    minus_1,
    utc,
    plus_1,
    plus_2,
    plus_3,
    plus_4,
    plus_5,
    plus_6,
    plus_7,
    plus_8,
    plus_9,
    plus_10,
    plus_11,
    plus_12,
}

/// The offset of `o` in hours.
pub open spec fn offset_hours(o: TimeZoneOffset) -> int {
    match o {
        TimeZoneOffset::minus_11 => -11,
        TimeZoneOffset::minus_10 => -10,
        TimeZoneOffset::minus_9 => -9,
        TimeZoneOffset::minus_8 => -8,
        TimeZoneOffset::minus_7 => -7,
        TimeZoneOffset::minus_6 => -6,
        TimeZoneOffset::minus_5 => -5,
        TimeZoneOffset::minus_4 => -4,
        TimeZoneOffset::minus_3 => -3,
        TimeZoneOffset::minus_2 => -2,
        TimeZoneOffset::minus_1 => -1,
        TimeZoneOffset::utc => 0,
        TimeZoneOffset::plus_1 => 1,
        TimeZoneOffset::plus_2 => 2,
        TimeZoneOffset::plus_3 => 3,
        TimeZoneOffset::plus_4 => 4,
        TimeZoneOffset::plus_5 => 5,
        TimeZoneOffset::plus_6 => 6,
        TimeZoneOffset::plus_7 => 7,
        TimeZoneOffset::plus_8 => 8,
        TimeZoneOffset::plus_9 => 9,
        TimeZoneOffset::plus_10 => 10,
        TimeZoneOffset::plus_11 => 11,
        TimeZoneOffset::plus_12 => 12,
    }
}

impl TimeZoneOffset {
    /// The offset in hours.
    pub fn hours(&self) -> (r: i8)
        ensures
            r as int == offset_hours(*self),
            -11 <= r <= 12,
    {
        match self {
            TimeZoneOffset::minus_11 => -11,
            TimeZoneOffset::minus_10 => -10,
            TimeZoneOffset::minus_9 => -9,
            TimeZoneOffset::minus_8 => -8,
            TimeZoneOffset::minus_7 => -7,
            TimeZoneOffset::minus_6 => -6,
            TimeZoneOffset::minus_5 => -5,
            TimeZoneOffset::minus_4 => -4,
            TimeZoneOffset::minus_3 => -3,
            TimeZoneOffset::minus_2 => -2,
            TimeZoneOffset::minus_1 => -1,
            TimeZoneOffset::utc => 0,
            TimeZoneOffset::plus_1 => 1,
            TimeZoneOffset::plus_2 => 2,
            TimeZoneOffset::plus_3 => 3,
            TimeZoneOffset::plus_4 => 4,
            TimeZoneOffset::plus_5 => 5,
            TimeZoneOffset::plus_6 => 6,
            TimeZoneOffset::plus_7 => 7,
            TimeZoneOffset::plus_8 => 8,
            TimeZoneOffset::plus_9 => 9,
            TimeZoneOffset::plus_10 => 10,
            TimeZoneOffset::plus_11 => 11,
            TimeZoneOffset::plus_12 => 12,
        }
    }
}

/// Whether a destination's or connector's configuration has been validated.
#[derive(Clone, Copy, PartialEq, Eq, Structural, Debug)]
pub enum DestinationSetupStatus {
    Broken,
    Connected,
    Incomplete,
}

/// A destination as creation returns it.
pub struct DestinationExtendedResponse {
    pub id: String,
    pub service: String,
    pub region: Region,
    pub setup_status: DestinationSetupStatus,
    pub group_id: String,
    pub time_zone_offset: TimeZoneOffset,
    pub daylight_saving_time_enabled: Option<bool>,
    pub local_processing_agent_id: Option<String>,
    pub private_link_id: Option<String>,
    pub proxy_agent_id: Option<String>,
    pub hybrid_deployment_agent_id: Option<String>,
}

/// A destination as the account-wide list returns it.
pub struct DestinationResponse {
    pub group_id: String,
    pub id: String,
    pub region: Region,
    pub service: String,
    pub setup_status: DestinationSetupStatus,
    pub time_zone_offset: TimeZoneOffset,
}

/// How often a connector syncs, in minutes.
#[derive(Clone, Copy, PartialEq, Eq, Structural, Debug)]
pub enum NewConnectorRequestV1SyncFrequency {
    Value1,
    Value5,
    Value15,
    Value30,
    Value60,
    Value120,
    Value180,
    Value360,
    Value480,
    Value720,
    Value1440,
}

/// The interval of `f` in minutes, which is also its token on the wire.
pub open spec fn sync_minutes(f: NewConnectorRequestV1SyncFrequency) -> u16 {
    match f {
        NewConnectorRequestV1SyncFrequency::Value1 => 1,
        NewConnectorRequestV1SyncFrequency::Value5 => 5,
        NewConnectorRequestV1SyncFrequency::Value15 => 15,
        NewConnectorRequestV1SyncFrequency::Value30 => 30,
        NewConnectorRequestV1SyncFrequency::Value60 => 60,
        NewConnectorRequestV1SyncFrequency::Value120 => 120,
        NewConnectorRequestV1SyncFrequency::Value180 => 180,
        NewConnectorRequestV1SyncFrequency::Value360 => 360,
        NewConnectorRequestV1SyncFrequency::Value480 => 480,
        NewConnectorRequestV1SyncFrequency::Value720 => 720,
        NewConnectorRequestV1SyncFrequency::Value1440 => 1440,
    }
}

/// The frequency whose interval is `m` minutes, if there is one.
pub open spec fn sync_frequency_of(m: u16) -> Option<NewConnectorRequestV1SyncFrequency> {
    if m == 1 {
        Some(NewConnectorRequestV1SyncFrequency::Value1)
    } else     if m == 5 {
        Some(NewConnectorRequestV1SyncFrequency::Value5)
    } else     if m == 15 {
        Some(NewConnectorRequestV1SyncFrequency::Value15)
    } else     if m == 30 {
        Some(NewConnectorRequestV1SyncFrequency::Value30)
    } else     if m == 60 {
        Some(NewConnectorRequestV1SyncFrequency::Value60)
    } else     if m == 120 {
        Some(NewConnectorRequestV1SyncFrequency::Value120)
    } else     if m == 180 {
        Some(NewConnectorRequestV1SyncFrequency::Value180)
    } else     if m == 360 {
        Some(NewConnectorRequestV1SyncFrequency::Value360)
    } else     if m == 480 {
        Some(NewConnectorRequestV1SyncFrequency::Value480)
    } else     if m == 720 {
        Some(NewConnectorRequestV1SyncFrequency::Value720)
    } else     if m == 1440 {
        Some(NewConnectorRequestV1SyncFrequency::Value1440)
    } else {
        None
    }
}

impl NewConnectorRequestV1SyncFrequency {
    /// The interval in minutes.
    pub fn minutes(&self) -> (r: u16)
        ensures
            r == sync_minutes(*self),
    {
        match self {
            NewConnectorRequestV1SyncFrequency::Value1 => 1,
            NewConnectorRequestV1SyncFrequency::Value5 => 5,
            NewConnectorRequestV1SyncFrequency::Value15 => 15,
            NewConnectorRequestV1SyncFrequency::Value30 => 30,
            NewConnectorRequestV1SyncFrequency::Value60 => 60,
            NewConnectorRequestV1SyncFrequency::Value120 => 120,
            NewConnectorRequestV1SyncFrequency::Value180 => 180,
            NewConnectorRequestV1SyncFrequency::Value360 => 360,
            NewConnectorRequestV1SyncFrequency::Value480 => 480,
            NewConnectorRequestV1SyncFrequency::Value720 => 720,
            NewConnectorRequestV1SyncFrequency::Value1440 => 1440,
        }
    }

    /// The frequency of `m` minutes; `None` where `m` is not one of the
    /// offered intervals.
    pub fn from_minutes(m: u16) -> (r: Option<NewConnectorRequestV1SyncFrequency>)
        ensures
            r == sync_frequency_of(m),
    {
        match m {
            1 => Some(NewConnectorRequestV1SyncFrequency::Value1),
            5 => Some(NewConnectorRequestV1SyncFrequency::Value5),
            15 => Some(NewConnectorRequestV1SyncFrequency::Value15),
            30 => Some(NewConnectorRequestV1SyncFrequency::Value30),
            60 => Some(NewConnectorRequestV1SyncFrequency::Value60),
            120 => Some(NewConnectorRequestV1SyncFrequency::Value120),
            180 => Some(NewConnectorRequestV1SyncFrequency::Value180),
            360 => Some(NewConnectorRequestV1SyncFrequency::Value360),
            480 => Some(NewConnectorRequestV1SyncFrequency::Value480),
            720 => Some(NewConnectorRequestV1SyncFrequency::Value720),
            1440 => Some(NewConnectorRequestV1SyncFrequency::Value1440),
            _ => None,
        }
    }
}

/// A sync frequency survives the trip through its wire token, and a token
/// that decodes encodes back to itself.
pub proof fn lemma_sync_frequency_round_trip(f: NewConnectorRequestV1SyncFrequency, m: u16)
    ensures
        sync_frequency_of(sync_minutes(f)) == Some(f),
        sync_frequency_of(m) is Some ==> sync_minutes(sync_frequency_of(m)->Some_0) == m,
{
}

/// The state of a connector, as the platform reports it.
pub struct ConnectorStatusResponse {
    /// `on_schedule` or `delayed`.
    pub update_state: String,
    /// `incomplete`, `connected` or `broken`.
    pub setup_state: String,
    /// `scheduled`, `syncing`, `paused` or `rescheduled`.
    pub sync_state: String,
    /// Whether the next sync replicates all historical data.
    pub is_historical_sync: bool,
    pub schema_status: Option<String>,
    /// When a rescheduled sync will run.
    pub rescheduled_for: Option<String>,
}

/// A connector as creation, reading and updating return it.
pub struct ConnectorResponseV1 {
    pub id: String,
    pub service: String,
    pub schema: String,
    pub paused: bool,
    pub status: ConnectorStatusResponse,
    pub sync_frequency: NewConnectorRequestV1SyncFrequency,
    pub group_id: String,
    pub service_version: i64,
    pub created_at: String,
    pub pause_after_trial: bool,
    pub schedule_type: String,
    pub daily_sync_time: Option<String>,
    /// Set once a sync has succeeded.
    pub succeeded_at: Option<String>,
    pub connected_by: Option<String>,
    /// Set once a sync has failed.
    pub failed_at: Option<String>,
    pub private_link_id: Option<String>,
    pub proxy_agent_id: Option<String>,
    pub hybrid_deployment_agent_id: Option<String>,
}

/// A connector as the lists return it.
pub struct ConnectorResponse {
    pub id: String,
    pub service: String,
    pub schema: String,
    pub paused: bool,
    pub status: ConnectorStatusResponse,
    pub sync_frequency: u64,
    pub group_id: String,
    pub connected_by: String,
    pub created_at: String,
    pub pause_after_trial: bool,
    pub schedule_type: String,
    pub daily_sync_time: Option<String>,
    pub succeeded_at: Option<String>,
    pub failed_at: Option<String>,
}

/// A list of connectors.
pub struct ConnectorList {
    pub items: Vec<ConnectorResponse>,
}

/// A list of destinations.
pub struct ListDestinationResponse {
    pub items: Vec<DestinationResponse>,
}

} // verus!
