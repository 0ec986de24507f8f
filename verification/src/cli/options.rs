//! Command line arguments.
use vstd::prelude::*;

verus! {

/// Where the instruments database is and how to log into it.
#[derive(Debug, Clone)]
pub struct DatabaseOpts {
    pub host: String,
    pub username: String,
    pub password: String,
    pub database: String,
}

/// How to reach the Slack channel that receives the reports.
#[derive(Debug, Clone)]
pub struct SlackOpts {
    pub bot_token: String,
    pub channel_id: String,
}

/// The command line arguments of a run.
#[derive(Debug, Clone)]
pub struct CliArgs {
    /// The largest number of database connections.
    pub max_con: u32,
    /// Whether new instruments get the identifiers of their assets.
    pub auto_map: bool,
    pub database: DatabaseOpts,
    /// The name of the source to reconcile.
    pub source: String,
    pub slack: Option<SlackOpts>,
}

} // verus!
