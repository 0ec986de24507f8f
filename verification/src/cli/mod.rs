//! The command line program's state: its arguments and the registered sources.
use vstd::prelude::*;
use vstd::string::*;

pub mod options;

use crate::database::instrument::Instrument as DBInstrument;
use crate::error::FoxsurError;
use crate::sources::deribit::{is_deribit_source, Deribit};
use crate::sources::paxos::{is_paxos_source, Paxos};
use crate::sources::rest_source::RestSource;
use crate::sources::{Sources, Src};
use options::CliArgs;

verus! {

/// What a run does once the new rows are prepared.
#[derive(Debug, Clone, Copy, PartialEq, Eq, Structural)]
pub enum AfterFetch {
    /// Nothing to insert: the run ends without inserting or reporting.
    Finish,
    /// Insert the rows, then report.
    InsertAndReport,
}

/// The step after fetching: a run with no new rows ends there.
pub fn after_fetch(rows: &Vec<(DBInstrument, String)>) -> (r: AfterFetch)
    ensures
        r == (if rows@.len() == 0 { AfterFetch::Finish } else { AfterFetch::InsertAndReport }),
{
    if rows.is_empty() {
        AfterFetch::Finish
    } else {
        AfterFetch::InsertAndReport
    }
}

/// The program: its arguments and the sources it may reconcile.
pub struct Cli {
    pub args: CliArgs,
    pub sources: Sources,
}

impl Cli {
    /// Registers the sources that foxsur may use: Paxos and Deribit.
    pub fn register_source(&mut self)
        ensures
            final(self).args == old(self).args,
            final(self).sources@.dom() == old(self).sources@.dom().insert("paxos"@).insert("deribit"@),
            is_paxos_source(final(self).sources@["paxos"@]),
            is_deribit_source(final(self).sources@["deribit"@]),
            forall|k: Seq<char>|
                k != "paxos"@ && k != "deribit"@ && #[trigger] old(self).sources@.contains_key(k)
                    ==> final(self).sources@[k] == old(self).sources@[k],
    {
        let paxos = Paxos::get_source();
        let deribit = Deribit::get_source();
        self.sources
            .register(paxos, crate::sources::paxos::NAME)
            .register(deribit, crate::sources::deribit::NAME);
        proof {
            reveal_strlit("paxos");
            reveal_strlit("deribit");
            assert("paxos"@.len() != "deribit"@.len());
            assert(final(self).sources@.dom() =~= old(self).sources@.dom().insert("paxos"@).insert("deribit"@));
        }
    }

    /// The source named by the arguments: the first step of a run, which stops with
    /// `SourceNotFound` when no source is registered under that name.
    pub fn target_source(&self) -> (r: Result<&RestSource, FoxsurError>)
        ensures
            self.sources@.contains_key(self.args.source@) ==> (r matches Ok(s) && *s == self.sources@[self.args.source@]),
            !self.sources@.contains_key(self.args.source@) ==> r matches Err(FoxsurError::SourceNotFound),
    {
        match self.sources.load(self.args.source.as_str()) {
            Some(s) => Ok(s),
            None => Err(FoxsurError::SourceNotFound),
        }
    }
}

} // verus!
