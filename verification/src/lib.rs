//! The request-forwarding and provider-health core of a local gateway that stands between
//! command-line assistants and a pool of upstream providers: it classifies a request,
//! selects a provider, shapes the upstream call, settles what came back, and keeps the
//! books that selection reads.

pub mod config;
pub mod forwarder;
pub mod handlers;
pub mod headers;
pub mod health;
pub mod json;
pub mod logging;
pub mod models;
pub mod proxy;
pub mod registry;
pub mod registry_wf;
pub mod routing;
pub mod schema;
pub mod schema_diff;
pub mod schema_migrator;
pub mod stats;
pub mod tables;
pub mod text;
pub mod usage;
pub mod variant;
pub mod wildcard;
