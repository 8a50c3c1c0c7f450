//! Retention and teardown: which resources are old enough to delete, and in
//! which order the deletions of a run's resources are issued. Each plan is a
//! list of DELETE requests, to be sent in order until the first failure.
use vstd::prelude::*;
use crate::api::{
    connection_path, delete_connector, delete_destination, delete_group, destination_path,
    group_path, Endpoint, Method,
};
use crate::model::{ConnectorList, DestinationExtendedResponse, DestinationResponse, GroupResponse};

verus! {

/// The age from which a resource is old: fifteen minutes, in microseconds.
pub const MAX_AGE_MICROS: i64 = 900_000_000;

/// The instant that a timestamp denotes, in microseconds since the Unix
/// epoch, as chrono reads it with its `%+` format: an ISO 8601 date and time
/// with an offset, in the somewhat relaxed form chrono accepts (not strictly
/// RFC 3339). `None` for text that does not parse.
pub uninterp spec fn rfc3339_micros(s: Seq<char>) -> Option<i64>;

/// Relies on chrono's `DateTime::parse_from_str` with the `%+` format
/// (chrono's relaxed ISO 8601 reading) and on `DateTime::timestamp_micros`:
/// the parsed instant in microseconds since the epoch, or `None` where
/// parsing fails. The result depends on the text alone.
#[verifier::external_body]
fn parse_timestamp_micros(s: &str) -> (r: Option<i64>)
    ensures
        r == rfc3339_micros(s@),
{
    match chrono::DateTime::parse_from_str(s, "%+") {
        Ok(t) => Some(t.timestamp_micros()),
        Err(_) => None,
    }
}

/// Relies on chrono's `Utc::now` and `DateTime::timestamp_micros`: the current
/// time in microseconds since the epoch. Nothing is known of its value.
#[verifier::external_body]
fn now_micros() -> (r: i64) {
    chrono::Utc::now().timestamp_micros()
}

/// A resource created at `created` is old at `now` when at least fifteen
/// minutes have passed; one whose creation time is unknown is old.
pub open spec fn expired(created: Option<i64>, now: i64) -> bool {
    match created {
        None => true,
        Some(c) => now - c >= MAX_AGE_MICROS,
    }
}

/// Whether a resource created at `created` (microseconds) is old at `now`.
pub fn is_expired(created: Option<i64>, now: i64) -> (r: bool)
    ensures
        r == expired(created, now),
{
    match created {
        None => true,
        Some(c) => (now as i128) - (c as i128) >= MAX_AGE_MICROS as i128,
    }
}

/// Whether a resource whose creation timestamp reads `created_at` is old at
/// `now`; unparseable text counts as old.
pub fn is_old_at(created_at: &str, now: i64) -> (r: bool)
    ensures
        r == expired(rfc3339_micros(created_at@), now),
{
    is_expired(parse_timestamp_micros(created_at), now)
}

/// Whether a resource whose creation timestamp reads `created_at` is old now.
pub fn is_old(created_at: &str) -> (r: bool)
    ensures
        rfc3339_micros(created_at@) is None ==> r,
        exists|now: i64| r == expired(rfc3339_micros(created_at@), now),
{
    let now = now_micros();
    is_old_at(created_at, now)
}

/// The age boundary is inclusive: a resource created exactly fifteen minutes
/// before `now` is old, one created a minute earlier is old too, and one
/// created a minute later is not.
pub proof fn lemma_age_boundary(now: i64)
    requires
        i64::MIN + MAX_AGE_MICROS + 60_000_000 <= now,
    ensures
        expired(Some((now - MAX_AGE_MICROS) as i64), now),
        expired(Some((now - MAX_AGE_MICROS - 60_000_000) as i64), now),
        !expired(Some((now - MAX_AGE_MICROS + 60_000_000) as i64), now),
{
}

/// A request line as a pair of method and path.
pub open spec fn requests_view(v: Seq<Endpoint>) -> Seq<(Method, Seq<char>)> {
    Seq::new(v.len(), |i: int| (v[i].method, v[i].path@))
}

/// The deletions of the old connectors among `items`, in list order.
pub open spec fn old_connector_requests(
    items: Seq<crate::model::ConnectorResponse>,
    now: i64,
) -> Seq<(Method, Seq<char>)>
    decreases items.len(),
{
    if items.len() == 0 {
        seq![]
    } else {
        let rest = old_connector_requests(items.drop_last(), now);
        let c = items.last();
        if expired(rfc3339_micros(c.created_at@), now) {
            rest.push((Method::Delete, connection_path(c.id@)))
        } else {
            rest
        }
    }
}

/// The first sweep of the retention pass at time `now`: delete each listed
/// connector that is old.
pub fn old_connector_deletes_at(connectors: &ConnectorList, now: i64) -> (r: Vec<Endpoint>)
    ensures
        requests_view(r@) == old_connector_requests(connectors.items@, now),
{
    let items = &connectors.items;
    let mut out: Vec<Endpoint> = Vec::new();
    let mut i: usize = 0;
    while i < items.len()
        invariant
            i <= items@.len(),
            requests_view(out@) == old_connector_requests(items@.subrange(0, i as int), now),
        decreases items@.len() - i,
    {
        let c = &items[i];
        assert(items@.subrange(0, i + 1).drop_last() =~= items@.subrange(0, i as int));
        if is_old_at(c.created_at.as_str(), now) {
            let e = delete_connector(c.id.as_str());
            let ghost before = out@;
            out.push(e);
            assert(requests_view(out@) =~= requests_view(before).push(
                (Method::Delete, connection_path(c.id@)),
            ));
        }
        i += 1;
    }
    assert(items@.subrange(0, items@.len() as int) =~= items@);
    out
}

/// The first sweep of the retention pass, at the current time.
pub fn old_connector_deletes(connectors: &ConnectorList) -> (r: Vec<Endpoint>)
    ensures
        exists|now: i64| requests_view(r@) == old_connector_requests(connectors.items@, now),
{
    let now = now_micros();
    old_connector_deletes_at(connectors, now)
}

/// The deletions that the second sweep issues for one destination, given its
/// group: the destination and then the group, if the group is old.
pub open spec fn destination_requests(
    destination: DestinationResponse,
    group: GroupResponse,
    now: i64,
) -> Seq<(Method, Seq<char>)> {
    if expired(rfc3339_micros(group.created_at@), now) {
        seq![
            (Method::Delete, destination_path(destination.id@)),
            (Method::Delete, group_path(destination.group_id@)),
        ]
    } else {
        seq![]
    }
}

/// The second sweep of the retention pass at time `now`, for one destination
/// and the group that owns it.
pub fn destination_deletes_at(
    destination: &DestinationResponse,
    group: &GroupResponse,
    now: i64,
) -> (r: Vec<Endpoint>)
    ensures
        requests_view(r@) == destination_requests(*destination, *group, now),
{
    let mut out: Vec<Endpoint> = Vec::new();
    if is_old_at(group.created_at.as_str(), now) {
        out.push(delete_destination(destination.id.as_str()));
        out.push(delete_group(destination.group_id.as_str()));
    }
    assert(requests_view(out@) =~= destination_requests(*destination, *group, now));
    out
}

/// The second sweep of the retention pass, at the current time.
pub fn destination_deletes(destination: &DestinationResponse, group: &GroupResponse) -> (r: Vec<
    Endpoint,
>)
    ensures
        exists|now: i64| requests_view(r@) == destination_requests(*destination, *group, now),
{
    let now = now_micros();
    destination_deletes_at(destination, group, now)
}

/// The resources that one run created and must remove.
pub struct CreatedObjects {
    pub group: GroupResponse,
    pub destination: DestinationExtendedResponse,
}

/// The teardown of a run: every connector of the group, then the
/// destination, then the group.
pub open spec fn teardown_requests(
    objects: CreatedObjects,
    connectors: Seq<crate::model::ConnectorResponse>,
) -> Seq<(Method, Seq<char>)> {
    Seq::new(connectors.len(), |i: int| (Method::Delete, connection_path(connectors[i].id@)))
        + seq![
        (Method::Delete, destination_path(objects.destination.id@)),
        (Method::Delete, group_path(objects.group.id@)),
    ]
}

/// The deletions that tear down a run, given the connectors listed under its
/// group, in dependency order.
pub fn cleanup_plan(objects: &CreatedObjects, connectors: &ConnectorList) -> (r: Vec<Endpoint>)
    ensures
        requests_view(r@) == teardown_requests(*objects, connectors.items@),
{
    let items = &connectors.items;
    let mut out: Vec<Endpoint> = Vec::new();
    let mut i: usize = 0;
    while i < items.len()
        invariant
            i <= items@.len(),
            out@.len() == i,
            forall|k: int|
                0 <= k < i ==> (#[trigger] out@[k]).method == Method::Delete && out@[k].path@
                    == connection_path(items@[k].id@),
        decreases items@.len() - i,
    {
        out.push(delete_connector(items[i].id.as_str()));
        i += 1;
    }
    out.push(delete_destination(objects.destination.id.as_str()));
    out.push(delete_group(objects.group.id.as_str()));
    assert(requests_view(out@) =~= teardown_requests(*objects, items@));
    out
}

} // verus!
