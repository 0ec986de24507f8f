//! The sources that foxsur can reconcile, and the registry of their names.
use vstd::prelude::*;

use crate::cli::options::CliArgs;
use crate::collections::{StringMap, StringSet};
use crate::database::instrument::Instrument as DBInstrument;
use crate::instruments::Instrument;
use crate::pattern::Pattern;
use rest_source::RestSource;
use vstd::string::*;

pub mod deribit;
pub mod kraken;
pub mod paxos;
pub mod rest_source;

verus! {

/// Gives the source that reconciles one exchange.
pub trait Src<T> {
    fn get_source() -> T;
}

/// What a source offers besides fetching.
pub trait SourceOps {
    /// `re` is what the source's own pattern compiles to.
    spec fn compiled_pattern(&self, re: Option<Pattern>) -> bool;

    /// Compares what an exchange lists with what the database holds, and prepares
    /// the instruments to insert.
    fn fetch(
        &self,
        db_asset: StringMap<i32>,
        db_insts: StringMap<DBInstrument>,
        opts: &CliArgs,
        re: &Option<Pattern>,
        exchange: (Vec<Instrument>, StringSet),
    ) -> (Vec<(DBInstrument, String)>, i64, usize)
        requires
            self.compiled_pattern(*re),
            exchange.0@.len() <= i64::MAX,
    ;

    /// The exchange code of the source.
    fn get_code(&self) -> String;
    /// The name of the source.
    fn get_name(&self) -> String;
}


/// The registry of the sources, by name.
pub struct Sources {
    sources: StringMap<RestSource>,
}

impl View for Sources {
    type V = Map<Seq<char>, RestSource>;

    closed spec fn view(&self) -> Map<Seq<char>, RestSource> {
        self.sources@
    }
}

impl Sources {
    /// A registry without sources.
    pub fn new() -> (r: Self)
        ensures
            r@ == Map::<Seq<char>, RestSource>::empty(),
    {
        Sources { sources: StringMap::new() }
    }

    /// Registers `source` under `source_name`, replacing the source registered there
    /// before; returns the registry, so that registrations chain.
    pub fn register(&mut self, source: RestSource, source_name: &str) -> (r: &mut Self)
        ensures
            r@ == old(self)@.insert(source_name@, source),
            *final(self) == *final(r),
    {
        self.sources.insert(String::from_str(source_name), source);
        self
    }

    /// The source registered under `source_name`, if any.
    pub fn load(&self, source_name: &str) -> (r: Option<&RestSource>)
        ensures
            match r {
                Some(s) => self@.contains_key(source_name@) && *s == self@[source_name@],
                None => !self@.contains_key(source_name@),
            },
    {
        self.sources.get(&String::from_str(source_name))
    }
}

/// Loading the name that a source was registered under gives that source back, and
/// registering a source leaves what every other name loads unchanged.
pub proof fn law_load_after_register(
    before: Map<Seq<char>, RestSource>,
    name: Seq<char>,
    source: RestSource,
    other: Seq<char>,
)
    ensures
        before.insert(name, source).contains_key(name),
        before.insert(name, source)[name] == source,
        other != name ==> before.insert(name, source).contains_key(other) == before.contains_key(other),
        other != name && before.contains_key(other) ==> before.insert(name, source)[other] == before[other],
{
}


/// Each source reads its own exchange and files under its own code and name; the
/// Paxos, Deribit and Kraken sources read three different exchanges.
pub proof fn law_sources_read_their_own_exchange(p: RestSource, d: RestSource, k: RestSource)
    ensures
        paxos::is_paxos_source(p) ==> p.get_from_exchange == rest_source::Exchange::Paxos
            && p.code@ == "itbi"@ && p.name@ == "paxos"@,
        deribit::is_deribit_source(d) ==> d.get_from_exchange == rest_source::Exchange::Deribit
            && d.code@ == "drbt"@ && d.name@ == "deribit"@,
        kraken::is_kraken_source(k) ==> k.get_from_exchange == rest_source::Exchange::Kraken
            && k.code@ == "krkn"@ && k.name@ == "kraken"@,
        paxos::is_paxos_source(p) && deribit::is_deribit_source(d) && kraken::is_kraken_source(k) ==> {
            &&& p.get_from_exchange != d.get_from_exchange
            &&& d.get_from_exchange != k.get_from_exchange
            &&& p.get_from_exchange != k.get_from_exchange
        },
{
}

} // verus!
