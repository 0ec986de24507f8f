//! Options read from the environment.
use vstd::prelude::*;

verus! {

/// The options of a run, read from the environment.
#[derive(Debug)]
pub struct Opts {
    pub max_con: u32,
    pub database: Option<DatabaseOpts>,
    pub auto_map: bool,
}

/// Where the instruments database is and how to log into it.
#[derive(Debug)]
pub struct DatabaseOpts {
    pub host: String,
    pub username: String,
    pub password: String,
    pub database: String,
}

impl Default for DatabaseOpts {
    fn default() -> (r: Self)
        ensures
            r.host@ == Seq::<char>::empty(),
            r.username@ == Seq::<char>::empty(),
            r.password@ == Seq::<char>::empty(),
            r.database@ == Seq::<char>::empty(),
    {
        DatabaseOpts { host: String::new(), username: String::new(), password: String::new(), database: String::new() }
    }
}

impl Default for Opts {
    /// Five connections, no database, assets mapped automatically.
    fn default() -> (r: Self)
        ensures
            r.max_con == 5,
            r.database is None,
            r.auto_map,
    {
        Opts { max_con: 5, database: None, auto_map: true }
    }
}

} // verus!
