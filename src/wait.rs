//! The two polling state machines: waiting for a new connector's setup to
//! be usable, and waiting for a historical sync to finish. Each step looks
//! at a freshly fetched connector and says whether to stop or to sleep and
//! fetch again. There is no attempt limit: a caller that needs one counts
//! the steps itself.
use vstd::prelude::*;
use crate::model::ConnectorResponseV1;

verus! {

/// Seconds to sleep between two fetches of a connector.
pub const POLL_INTERVAL_SECS: u64 = 10;

/// What to do after looking at a connector while waiting for its setup.
#[derive(Clone, Copy, PartialEq, Eq, Structural, Debug)]
pub enum SetupPoll {
    /// The setup is usable; the record just fetched is the result.
    Connected,
    /// Sleep this many seconds, then fetch the connector again.
    Retry { delay_secs: u64 },
}

/// How a finished sync ended.
#[derive(Clone, Copy, PartialEq, Eq, Structural, Debug)]
pub enum SyncOutcome {
    Succeeded,
    Failed,
}

/// What to do after looking at a connector while waiting for its sync.
#[derive(Clone, Copy, PartialEq, Eq, Structural, Debug)]
pub enum SyncPoll {
    /// The sync has finished.
    Finished(SyncOutcome),
    /// Sleep this many seconds, then fetch the connector again.
    Retry { delay_secs: u64 },
}

/// Whether the connector's setup state is `connected`.
pub open spec fn setup_is_connected(c: ConnectorResponseV1) -> bool {
    c.status.setup_state@ == "connected"@
}

/// The outcome of the connector's last sync, if it has finished: a failure
/// mark wins over a success mark.
pub open spec fn sync_outcome(c: ConnectorResponseV1) -> Option<SyncOutcome> {
    if c.failed_at is Some {
        Some(SyncOutcome::Failed)
    } else if c.succeeded_at is Some {
        Some(SyncOutcome::Succeeded)
    } else {
        None
    }
}

/// One step of the setup wait: stop on `connected`, otherwise (including
/// `incomplete` and `broken`) sleep and fetch again.
pub fn setup_poll(connector: &ConnectorResponseV1) -> (r: SetupPoll)
    ensures
        r == (if setup_is_connected(*connector) {
            SetupPoll::Connected
        } else {
            SetupPoll::Retry { delay_secs: POLL_INTERVAL_SECS }
        }),
{
    let connected = String::from_str("connected");
    if connector.status.setup_state == connected {
        SetupPoll::Connected
    } else {
        SetupPoll::Retry { delay_secs: POLL_INTERVAL_SECS }
    }
}

/// One step of the sync wait: stop once either completion mark is set,
/// otherwise sleep and fetch again.
pub fn sync_poll(connector: &ConnectorResponseV1) -> (r: SyncPoll)
    ensures
        r == (match sync_outcome(*connector) {
            Some(o) => SyncPoll::Finished(o),
            None => SyncPoll::Retry { delay_secs: POLL_INTERVAL_SECS },
        }),
{
    if connector.failed_at.is_some() {
        SyncPoll::Finished(SyncOutcome::Failed)
    } else if connector.succeeded_at.is_some() {
        SyncPoll::Finished(SyncOutcome::Succeeded)
    } else {
        SyncPoll::Retry { delay_secs: POLL_INTERVAL_SECS }
    }
}

} // verus!
