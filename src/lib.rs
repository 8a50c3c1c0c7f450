//! Orchestration logic for an end-to-end replication check against a remote
//! data-movement platform: the schema filter policy, the polling state
//! machines, the retention rules, the REST endpoint table and the request
//! bodies. The network and process plumbing lives in the application crate.

pub mod schema;
pub mod api;
pub mod model;
pub mod wait;
pub mod cleanup;
pub mod validate;
pub mod naming;
pub mod requests;
pub mod run;
