//! One run as a state machine: provision a group, a destination and a
//! connector, wait for the connector's setup, filter and submit its schema,
//! start a historical sync and wait for it to finish. The caller performs
//! each action and feeds back what the platform returned.
use vstd::prelude::*;
use crate::api::{
    connection_path, create_connector, create_destination, create_group, get_connector,
    reload_connector_schema_config, schemas_path, schemas_reload_path, start_sync,
    update_connector_schema_config, Endpoint, Method,
};
use crate::cleanup::CreatedObjects;
use crate::model::{ConnectorResponseV1, DestinationExtendedResponse, GroupResponse};
use crate::naming::{is_group_name, new_group_name};
use crate::requests::{
    connector_request, destination_request, is_connector_request, is_destination_request, new_group_request, start_sync_request,
    NewGroupRequest, PostgresNewConnectorRequestV1, PostgresWarehouseNewDestinationRequest,
    UpdateConnectorRequest,
};
use crate::schema::{
    policy, schema_update_request, schemas_view, skipped_columns, SchemaChangeHandling,
    StandardConfigResponse, UpdateConnectorSchemaRequest,
};
use crate::wait::{
    setup_is_connected, setup_poll, sync_outcome, sync_poll, SetupPoll, SyncOutcome, SyncPoll,
    POLL_INTERVAL_SECS,
};

verus! {

/// Where a run stands.
#[derive(Clone, Copy, PartialEq, Eq, Structural, Debug)]
pub enum RunStage {
    Start,
    CreatingGroup,
    CreatingDestination,
    CreatingConnector,
    AwaitingSetup,
    ReloadingSchema,
    UpdatingSchema,
    StartingSync,
    AwaitingSync,
    Finished,
}

/// What the platform returned for the last action.
pub enum RunEvent {
    /// The run begins; no action was taken yet.
    Begin,
    GroupCreated(GroupResponse),
    DestinationCreated(DestinationExtendedResponse),
    /// A connector record: from creation, from a re-read, or from starting
    /// the sync.
    ConnectorFetched(ConnectorResponseV1),
    SchemaReloaded(StandardConfigResponse),
    SchemaUpdated,
}

/// The next thing to do.
pub enum RunAction {
    CreateGroup { endpoint: Endpoint, group: NewGroupRequest },
    CreateDestination { endpoint: Endpoint, destination: PostgresWarehouseNewDestinationRequest },
    CreateConnector { endpoint: Endpoint, connector: PostgresNewConnectorRequestV1 },
    /// Sleep `delay_secs` seconds, then read the connector again.
    RefetchConnector { delay_secs: u64, endpoint: Endpoint },
    ReloadSchema { endpoint: Endpoint },
    UpdateSchema { endpoint: Endpoint, schemas: UpdateConnectorSchemaRequest },
    StartSync { endpoint: Endpoint, settings: UpdateConnectorRequest },
    /// The sync has finished; the run is over.
    Finish(SyncOutcome),
    /// The event does not fit the stage; nothing changed.
    Unexpected,
}

/// The state of one run.
pub struct Run {
    pub stage: RunStage,
    pub warehouse_host: String,
    pub warehouse_port: u16,
    pub source_host: String,
    pub source_port: u16,
    pub group: Option<GroupResponse>,
    pub destination: Option<DestinationExtendedResponse>,
    pub connector_id: String,
}

/// The stage after `ev` at stage `stage`.
pub open spec fn next_stage(stage: RunStage, ev: RunEvent) -> RunStage {
    match (stage, ev) {
        (RunStage::Start, RunEvent::Begin) => RunStage::CreatingGroup,
        (RunStage::CreatingGroup, RunEvent::GroupCreated(_)) => RunStage::CreatingDestination,
        (RunStage::CreatingDestination, RunEvent::DestinationCreated(_)) => RunStage::CreatingConnector,
        (RunStage::CreatingConnector, RunEvent::ConnectorFetched(c)) | (
            RunStage::AwaitingSetup,
            RunEvent::ConnectorFetched(c),
        ) => if setup_is_connected(c) {
            RunStage::ReloadingSchema
        } else {
            RunStage::AwaitingSetup
        },
        (RunStage::ReloadingSchema, RunEvent::SchemaReloaded(_)) => RunStage::UpdatingSchema,
        (RunStage::UpdatingSchema, RunEvent::SchemaUpdated) => RunStage::StartingSync,
        (RunStage::StartingSync, RunEvent::ConnectorFetched(c)) | (
            RunStage::AwaitingSync,
            RunEvent::ConnectorFetched(c),
        ) => if sync_outcome(c) is Some {
            RunStage::Finished
        } else {
            RunStage::AwaitingSync
        },
        _ => stage,
    }
}

/// The group recorded after `ev`: the one just created, or the one before.
pub open spec fn next_group(run: Run, ev: RunEvent) -> Option<GroupResponse> {
    match (run.stage, ev) {
        (RunStage::CreatingGroup, RunEvent::GroupCreated(g)) => Some(g),
        _ => run.group,
    }
}

/// The destination recorded after `ev`: the one just created, or the one
/// before.
pub open spec fn next_destination(run: Run, ev: RunEvent) -> Option<DestinationExtendedResponse> {
    match (run.stage, ev) {
        (RunStage::CreatingDestination, RunEvent::DestinationCreated(d)) => Some(d),
        _ => run.destination,
    }
}

/// The connector id recorded after `ev`: the id of the connector just
/// created, or the one before. Every later request names this id.
pub open spec fn next_connector_id(run: Run, ev: RunEvent) -> Seq<char> {
    match (run.stage, ev) {
        (RunStage::CreatingConnector, RunEvent::ConnectorFetched(c)) => c.id@,
        _ => run.connector_id@,
    }
}

/// Whether `a` is the action that follows `ev` from the state `run`, whose
/// stage is then `next_stage(run.stage, ev)`.
pub open spec fn action_matches(run: Run, ev: RunEvent, a: RunAction) -> bool {
    let id = next_connector_id(run, ev);
    match (run.stage, ev) {
        (RunStage::Start, RunEvent::Begin) => a matches RunAction::CreateGroup { endpoint, group }
            && endpoint.method == Method::Post && endpoint.path@ == "/v1/groups"@
            && is_group_name(group.name@),
        (RunStage::CreatingGroup, RunEvent::GroupCreated(g)) => a matches RunAction::CreateDestination {
            endpoint,
            destination,
        } && endpoint.method == Method::Post && endpoint.path@ == "/v1/destinations"@
            && is_destination_request(
            destination,
            g.id@,
            run.warehouse_host@,
            run.warehouse_port,
        ),
        (RunStage::CreatingDestination, RunEvent::DestinationCreated(_)) => a matches RunAction::CreateConnector {
            endpoint,
            connector,
        } && endpoint.method == Method::Post && endpoint.path@ == "/v1/connections"@
            && run.group is Some && is_connector_request(
            connector,
            run.group->Some_0.id@,
            run.source_host@,
            run.source_port,
        ),
        (RunStage::CreatingConnector, RunEvent::ConnectorFetched(c)) | (
            RunStage::AwaitingSetup,
            RunEvent::ConnectorFetched(c),
        ) => if setup_is_connected(c) {
            a matches RunAction::ReloadSchema { endpoint } && endpoint.method == Method::Post
                && endpoint.path@ == schemas_reload_path(id)
        } else {
            a matches RunAction::RefetchConnector { delay_secs, endpoint } && delay_secs
                == POLL_INTERVAL_SECS && endpoint.method == Method::Get && endpoint.path@
                == connection_path(id)
        },
        (RunStage::ReloadingSchema, RunEvent::SchemaReloaded(tree)) => a matches RunAction::UpdateSchema {
            endpoint,
            schemas,
        } && endpoint.method == Method::Patch && endpoint.path@ == schemas_path(id)
            && schemas.schema_change_handling == SchemaChangeHandling::BlockAll && schemas_view(
            schemas.schemas@,
        ) == policy(tree, skipped_columns()),
        (RunStage::UpdatingSchema, RunEvent::SchemaUpdated) => a matches RunAction::StartSync {
            endpoint,
            settings,
        } && endpoint.method == Method::Patch && endpoint.path@ == connection_path(id)
            && settings == (UpdateConnectorRequest { is_historical_sync: true, paused: false }),
        (RunStage::StartingSync, RunEvent::ConnectorFetched(c)) | (
            RunStage::AwaitingSync,
            RunEvent::ConnectorFetched(c),
        ) => match sync_outcome(c) {
            Some(o) => a == RunAction::Finish(o),
            None => a matches RunAction::RefetchConnector { delay_secs, endpoint } && delay_secs
                == POLL_INTERVAL_SECS && endpoint.method == Method::Get && endpoint.path@
                == connection_path(id),
        },
        _ => a == RunAction::Unexpected,
    }
}

impl Run {
    /// The resources recorded so far match the stage: none before the group
    /// exists, the group alone until the destination exists, then both.
    pub open spec fn wf(&self) -> bool {
        match self.stage {
            RunStage::Start | RunStage::CreatingGroup => self.group is None
                && self.destination is None,
            RunStage::CreatingDestination => self.group is Some && self.destination is None,
            _ => self.group is Some && self.destination is Some,
        }
    }

    /// A run whose warehouse is reached at `warehouse_host:warehouse_port`
    /// and whose source is reached at `source_host:source_port`.
    pub fn new(warehouse_host: String, warehouse_port: u16, source_host: String, source_port: u16) -> (r:
        Run)
        ensures
            r.stage == RunStage::Start,
            r.warehouse_host@ == warehouse_host@,
            r.warehouse_port == warehouse_port,
            r.source_host@ == source_host@,
            r.source_port == source_port,
            r.group is None,
            r.destination is None,
            r.wf(),
    {
        Run {
            stage: RunStage::Start,
            warehouse_host,
            warehouse_port,
            source_host,
            source_port,
            group: None,
            destination: None,
            connector_id: String::new(),
        }
    }

    /// Takes what the platform returned for the last action and says what to
    /// do next.
    pub fn step(&mut self, ev: RunEvent) -> (a: RunAction)
        requires
            old(self).wf(),
        ensures
            final(self).wf(),
            final(self).stage == next_stage(old(self).stage, ev),
            action_matches(*old(self), ev, a),
            final(self).warehouse_host == old(self).warehouse_host,
            final(self).warehouse_port == old(self).warehouse_port,
            final(self).source_host == old(self).source_host,
            final(self).source_port == old(self).source_port,
            final(self).group == next_group(*old(self), ev),
            final(self).destination == next_destination(*old(self), ev),
            final(self).connector_id@ == next_connector_id(*old(self), ev),
    {
        match (self.stage, ev) {
            (RunStage::Start, RunEvent::Begin) => {
                self.stage = RunStage::CreatingGroup;
                RunAction::CreateGroup {
                    endpoint: create_group(),
                    group: new_group_request(new_group_name()),
                }
            },
            (RunStage::CreatingGroup, RunEvent::GroupCreated(g)) => {
                let destination = destination_request(
                    g.id.as_str(),
                    self.warehouse_host.clone(),
                    self.warehouse_port,
                );
                self.group = Some(g);
                self.stage = RunStage::CreatingDestination;
                RunAction::CreateDestination { endpoint: create_destination(), destination }
            },
            (RunStage::CreatingDestination, RunEvent::DestinationCreated(d)) => {
                match &self.group {
                    Some(g) => {
                        let connector = connector_request(
                            g.id.as_str(),
                            self.source_host.clone(),
                            self.source_port,
                        );
                        self.destination = Some(d);
                        self.stage = RunStage::CreatingConnector;
                        RunAction::CreateConnector { endpoint: create_connector(), connector }
                    },
                    None => RunAction::Unexpected,
                }
            },
            (RunStage::CreatingConnector, RunEvent::ConnectorFetched(c)) => {
                self.connector_id = c.id.clone();
                self.await_setup(&c)
            },
            (RunStage::AwaitingSetup, RunEvent::ConnectorFetched(c)) => self.await_setup(&c),
            (RunStage::ReloadingSchema, RunEvent::SchemaReloaded(tree)) => {
                self.stage = RunStage::UpdatingSchema;
                RunAction::UpdateSchema {
                    endpoint: update_connector_schema_config(self.connector_id.as_str()),
                    schemas: schema_update_request(tree),
                }
            },
            (RunStage::UpdatingSchema, RunEvent::SchemaUpdated) => {
                self.stage = RunStage::StartingSync;
                RunAction::StartSync {
                    endpoint: start_sync(self.connector_id.as_str()),
                    settings: start_sync_request(),
                }
            },
            (RunStage::StartingSync, RunEvent::ConnectorFetched(c))
            | (RunStage::AwaitingSync, RunEvent::ConnectorFetched(c)) => {
                match sync_poll(&c) {
                    SyncPoll::Finished(o) => {
                        self.stage = RunStage::Finished;
                        RunAction::Finish(o)
                    },
                    SyncPoll::Retry { delay_secs } => {
                        self.stage = RunStage::AwaitingSync;
                        RunAction::RefetchConnector {
                            delay_secs,
                            endpoint: get_connector(self.connector_id.as_str()),
                        }
                    },
                }
            },
            _ => RunAction::Unexpected,
        }
    }

    /// The setup-wait step for the connector record `c`, at the recorded id.
    fn await_setup(&mut self, c: &ConnectorResponseV1) -> (a: RunAction)
        ensures
            final(self).stage == (if setup_is_connected(*c) {
                RunStage::ReloadingSchema
            } else {
                RunStage::AwaitingSetup
            }),
            final(self).warehouse_host == old(self).warehouse_host,
            final(self).warehouse_port == old(self).warehouse_port,
            final(self).source_host == old(self).source_host,
            final(self).source_port == old(self).source_port,
            final(self).group == old(self).group,
            final(self).destination == old(self).destination,
            final(self).connector_id == old(self).connector_id,
            if setup_is_connected(*c) {
                a matches RunAction::ReloadSchema { endpoint } && endpoint.method == Method::Post
                    && endpoint.path@ == schemas_reload_path(old(self).connector_id@)
            } else {
                a matches RunAction::RefetchConnector { delay_secs, endpoint } && delay_secs
                    == POLL_INTERVAL_SECS && endpoint.method == Method::Get && endpoint.path@
                    == connection_path(old(self).connector_id@)
            },
    {
        match setup_poll(c) {
            SetupPoll::Connected => {
                self.stage = RunStage::ReloadingSchema;
                RunAction::ReloadSchema {
                    endpoint: reload_connector_schema_config(self.connector_id.as_str()),
                }
            },
            SetupPoll::Retry { delay_secs } => {
                self.stage = RunStage::AwaitingSetup;
                RunAction::RefetchConnector {
                    delay_secs,
                    endpoint: get_connector(self.connector_id.as_str()),
                }
            },
        }
    }

    /// The resources this run created, once the group and the destination
    /// exist.
    pub fn created(self) -> (r: Option<CreatedObjects>)
        ensures
            r is Some <==> self.group is Some && self.destination is Some,
            r matches Some(o) ==> Some(o.group) == self.group && Some(o.destination)
                == self.destination,
    {
        match (self.group, self.destination) {
            (Some(group), Some(destination)) => Some(CreatedObjects { group, destination }),
            _ => None,
        }
    }
}

} // verus!
