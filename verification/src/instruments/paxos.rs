//! Instruments listed by Paxos.
use vstd::prelude::*;

use super::{assets_of, lemma_assets_of_push, GetInstrument, Instrument};
use crate::collections::StringSet;
use crate::error::FoxsurError;
use crate::text::{lowercase, to_lowercase};

verus! {

/// Reads the instruments of Paxos.
pub struct PaxosHandler;

/// A market as Paxos lists it.
#[derive(Debug, Clone)]
pub struct PaxosInstrument {
    pub market: String,
    pub base_asset: String,
    pub quote_asset: String,
}

impl PaxosInstrument {
    /// Lowercases the market and both assets.
    pub fn normalize(&mut self)
        ensures
            final(self).market@ == lowercase(old(self).market@),
            final(self).base_asset@ == lowercase(old(self).base_asset@),
            final(self).quote_asset@ == lowercase(old(self).quote_asset@),
    {
        self.market = to_lowercase(self.market.as_str());
        self.base_asset = to_lowercase(self.base_asset.as_str());
        self.quote_asset = to_lowercase(self.quote_asset.as_str());
    }
}

/// The instrument that a Paxos market describes.
pub open spec fn paxos_instrument_matches(inst: Instrument, market: PaxosInstrument) -> bool {
    &&& inst.symbol@ == lowercase(market.market@)
    &&& inst.base@ == lowercase(market.base_asset@)
    &&& inst.quote@ == lowercase(market.quote_asset@)
    &&& inst.class is None
    &&& inst.raw_symbol is None
}

impl GetInstrument for PaxosHandler {
    /// The markets of the answer, if it has a `markets` entry.
    type Payload = Option<Vec<PaxosInstrument>>;

    /// One lowercased instrument per market, and the assets they trade;
    /// an answer without markets is refused.
    fn get_instrument(payload: Option<Vec<PaxosInstrument>>) -> (r: Result<(Vec<Instrument>, StringSet), FoxsurError>)
        ensures
            payload is None ==> r == Err::<(Vec<Instrument>, StringSet), FoxsurError>(FoxsurError::NoMarkets),
            payload matches Some(markets) ==> r matches Ok((insts, set)) && {
                &&& insts@.len() == markets@.len()
                &&& forall|i: int| 0 <= i < markets@.len() ==> paxos_instrument_matches(#[trigger] insts@[i], markets@[i])
                &&& set@ == assets_of(insts@)
            },
    {
        let markets = match payload {
            Some(m) => m,
            None => return Err(FoxsurError::NoMarkets),
        };
        let mut instruments: Vec<Instrument> = Vec::new();
        let mut set = StringSet::new();
        let ghost all = markets@;
        proof {
            assert(assets_of(instruments@) =~= Set::<Seq<char>>::empty());
        }
        for market in it: markets
            invariant
                all == it.seq(),
                instruments@.len() == it.index(),
                forall|i: int| 0 <= i < it.index() ==> paxos_instrument_matches(#[trigger] instruments@[i], all[i]),
                set@ == assets_of(instruments@),
        {
            let mut inst = market;
            let ghost original = inst;
            inst.normalize();
            set.insert(inst.base_asset.clone());
            set.insert(inst.quote_asset.clone());
            let item = Instrument {
                symbol: inst.market,
                base: inst.base_asset,
                quote: inst.quote_asset,
                class: None,
                raw_symbol: None,
            };
            proof {
                lemma_assets_of_push(instruments@, item);
            }
            instruments.push(item);
        }
        Ok((instruments, set))
    }
}

} // verus!
