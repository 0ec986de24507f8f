//! Instruments listed by Kraken.
use vstd::prelude::*;
use vstd::string::*;

use super::{assets_of, lemma_assets_of_push, GetInstrument, Instrument};
use crate::collections::StringSet;
use crate::error::FoxsurError;
use crate::text::{after_char, before_char, split_once_char};

verus! {

/// Reads the instruments of Kraken.
pub struct KrakenHandler;

/// An asset pair as Kraken lists it.
#[derive(Debug, Clone)]
pub struct KrakenInstrument {
    pub wsname: String,
    pub altname: String,
}

/// The base asset of a websocket pair name `BASE/QUOTE`: the text before the first `/`.
pub open spec fn pair_base(wsname: Seq<char>) -> Seq<char> {
    before_char(wsname, '/')
}

/// The quote asset of a websocket pair name `BASE/QUOTE`: the text between the first
/// and the second `/`; empty when there is no `/`.
pub open spec fn pair_quote(wsname: Seq<char>) -> Seq<char> {
    match after_char(wsname, '/') {
        Some(rest) => before_char(rest, '/'),
        None => Seq::empty(),
    }
}

/// The instrument that a Kraken pair describes.
pub open spec fn kraken_instrument_matches(inst: Instrument, pair: KrakenInstrument) -> bool {
    &&& inst.symbol@ == pair.altname@
    &&& inst.base@ == pair_base(pair.wsname@)
    &&& inst.quote@ == pair_quote(pair.wsname@)
    &&& inst.raw_symbol matches Some(w) && w@ == pair.wsname@
    &&& inst.class matches Some(c) && c@ == "spot"@
}

impl KrakenHandler {
    /// Splits a websocket pair name into its base and quote assets.
    pub fn split_pair(wsname: &str) -> (r: (String, String))
        ensures
            r.0@ == pair_base(wsname@),
            r.1@ == pair_quote(wsname@),
    {
        let (base, rest) = split_once_char(wsname, '/');
        let quote = match rest {
            Some(r) => split_once_char(r.as_str(), '/').0,
            None => String::new(),
        };
        (base, quote)
    }
}

impl GetInstrument for KrakenHandler {
    /// The pairs of the answer, if it has a `result` entry.
    type Payload = Option<Vec<KrakenInstrument>>;

    /// One spot instrument per pair, and the assets they trade;
    /// an answer without a result is refused.
    fn get_instrument(payload: Option<Vec<KrakenInstrument>>) -> (r: Result<(Vec<Instrument>, StringSet), FoxsurError>)
        ensures
            payload is None ==> r == Err::<(Vec<Instrument>, StringSet), FoxsurError>(FoxsurError::NoResult),
            payload matches Some(pairs) ==> r matches Ok((insts, set)) && {
                &&& insts@.len() == pairs@.len()
                &&& forall|i: int| 0 <= i < pairs@.len() ==> kraken_instrument_matches(#[trigger] insts@[i], pairs@[i])
                &&& set@ == assets_of(insts@)
            },
    {
        let pairs = match payload {
            Some(p) => p,
            None => return Err(FoxsurError::NoResult),
        };
        let mut instruments: Vec<Instrument> = Vec::new();
        let mut set = StringSet::new();
        let ghost all = pairs@;
        proof {
            assert(assets_of(instruments@) =~= Set::<Seq<char>>::empty());
        }
        for pair in it: pairs
            invariant
                all == it.seq(),
                instruments@.len() == it.index(),
                forall|i: int| 0 <= i < it.index() ==> kraken_instrument_matches(#[trigger] instruments@[i], all[i]),
                set@ == assets_of(instruments@),
        {
            let (base, quote) = Self::split_pair(pair.wsname.as_str());
            set.insert(base.clone());
            set.insert(quote.clone());
            let item = Instrument {
                symbol: pair.altname,
                base: base,
                quote: quote,
                raw_symbol: Some(pair.wsname),
                class: Some(String::from_str("spot")),
            };
            proof {
                lemma_assets_of_push(instruments@, item);
            }
            instruments.push(item);
        }
        Ok((instruments, set))
    }
}

} // verus!
