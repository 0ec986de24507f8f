//! Records of the instruments database and the values read from or written to it.
use vstd::prelude::*;
use vstd::string::*;

use crate::cli::options::CliArgs;

pub mod asset;
pub mod instrument;

verus! {

/// The connection URL of the database described by the command line arguments:
/// `postgres://{username}:{password}@{host}/{database}`.
pub open spec fn database_url_text(opts: &CliArgs) -> Seq<char> {
    "postgres://"@ + opts.database.username@ + ":"@ + opts.database.password@ + "@"@
        + opts.database.host@ + "/"@ + opts.database.database@
}

/// The connection URL that the database handler connects to.
pub fn database_url(opts: &CliArgs) -> (url: String)
    ensures
        url@ == database_url_text(opts),
{
    let d = &opts.database;
    let url = String::from_str("postgres://");
    let url = url.concat(d.username.as_str());
    let url = url.concat(":");
    let url = url.concat(d.password.as_str());
    let url = url.concat("@");
    let url = url.concat(d.host.as_str());
    let url = url.concat("/");
    url.concat(d.database.as_str())
}

} // verus!
