//! Instruments listed by Deribit.
use vstd::prelude::*;
use vstd::string::*;

use super::{assets_of, lemma_assets_of_push, GetInstrument, Instrument};
use crate::collections::StringSet;
use crate::error::FoxsurError;
use crate::text::{ends_with, has_suffix};

verus! {

/// Reads the instruments of Deribit.
pub struct DeribitHandler;

/// An instrument as Deribit lists it.
#[derive(Debug, Clone)]
pub struct DeribitInstrument {
    pub instrument_name: String,
    pub base_currency: String,
    pub counter_currency: String,
    pub kind: String,
}

impl DeribitInstrument {
    /// The class of an instrument of kind `kind`: perpetual futures are
    /// `perpetual-future`, other kinds keep their name.
    pub open spec fn class_of(kind: Seq<char>) -> Seq<char> {
        if has_suffix(kind, "PERPETUAL"@) {
            "perpetual-future"@
        } else {
            kind
        }
    }

    /// The class of the instrument.
    pub fn get_instrument_class(&self) -> (r: String)
        ensures
            r@ == Self::class_of(self.kind@),
    {
        if ends_with(self.kind.as_str(), "PERPETUAL") {
            return String::from_str("perpetual-future");
        }
        self.kind.clone()
    }
}

/// The instrument that a Deribit listing describes.
pub open spec fn deribit_instrument_matches(inst: Instrument, listed: DeribitInstrument) -> bool {
    &&& inst.symbol@ == listed.instrument_name@
    &&& inst.base@ == listed.base_currency@
    &&& inst.quote@ == listed.counter_currency@
    &&& inst.class matches Some(c) && c@ == DeribitInstrument::class_of(listed.kind@)
    &&& inst.raw_symbol is None
}

impl GetInstrument for DeribitHandler {
    /// The instruments listed for every currency.
    type Payload = Vec<DeribitInstrument>;

    /// One instrument per listing, with its class, and the assets they trade.
    fn get_instrument(payload: Vec<DeribitInstrument>) -> (r: Result<(Vec<Instrument>, StringSet), FoxsurError>)
        ensures
            r matches Ok((insts, set)) && {
                &&& insts@.len() == payload@.len()
                &&& forall|i: int| 0 <= i < payload@.len() ==> deribit_instrument_matches(#[trigger] insts@[i], payload@[i])
                &&& set@ == assets_of(insts@)
            },
    {
        let mut instruments: Vec<Instrument> = Vec::new();
        let mut set = StringSet::new();
        let ghost all = payload@;
        proof {
            assert(assets_of(instruments@) =~= Set::<Seq<char>>::empty());
        }
        for listed in it: payload
            invariant
                all == it.seq(),
                instruments@.len() == it.index(),
                forall|i: int| 0 <= i < it.index() ==> deribit_instrument_matches(#[trigger] instruments@[i], all[i]),
                set@ == assets_of(instruments@),
        {
            set.insert(listed.base_currency.clone());
            set.insert(listed.counter_currency.clone());
            let class = listed.get_instrument_class();
            let item = Instrument {
                symbol: listed.instrument_name,
                base: listed.base_currency,
                quote: listed.counter_currency,
                class: Some(class),
                raw_symbol: None,
            };
            proof {
                lemma_assets_of_push(instruments@, item);
            }
            instruments.push(item);
        }
        Ok((instruments, set))
    }
}

} // verus!
