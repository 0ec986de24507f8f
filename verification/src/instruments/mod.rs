//! Instruments as exchanges list them, and how they are matched against the database.
use vstd::prelude::*;
use vstd::string::*;

use crate::collections::{StringMap, StringSet};
use crate::database::instrument::Instrument as DBInstrument;
use crate::error::FoxsurError;

pub mod deribit;
pub mod kraken;
pub mod paxos;

verus! {

/// An instrument listed by an exchange.
#[derive(Debug, Clone)]
pub struct Instrument {
    pub symbol: String,
    pub base: String,
    pub quote: String,
    pub class: Option<String>,
    pub raw_symbol: Option<String>,
}

/// What an exchange lists: its instruments and the set of the assets they trade.
pub trait GetInstrument {
    /// What was read from the exchange.
    type Payload;

    /// The instruments and assets that the exchange's answer describes.
    fn get_instrument(payload: Self::Payload) -> Result<(Vec<Instrument>, StringSet), FoxsurError>;
}

/// Reads no exchange: what a source without an exchange lists.
pub struct NoExchangeHandler;

impl GetInstrument for NoExchangeHandler {
    /// Nothing is read.
    type Payload = ();

    /// No instruments and no assets.
    fn get_instrument(payload: ()) -> (r: Result<(Vec<Instrument>, StringSet), FoxsurError>)
        ensures
            r matches Ok((insts, set)) && insts@.len() == 0 && set@ == Set::<Seq<char>>::empty(),
    {
        Ok((Vec::new(), StringSet::new()))
    }
}

/// The assets (bases and quotes) that a list of instruments trades.
pub open spec fn assets_of(insts: Seq<Instrument>) -> Set<Seq<char>> {
    Set::new(|a: Seq<char>| exists|i: int| 0 <= i < insts.len() && (#[trigger] insts[i].base@ == a || insts[i].quote@ == a))
}

/// Adding an instrument adds its base and its quote to the traded assets.
pub proof fn lemma_assets_of_push(insts: Seq<Instrument>, inst: Instrument)
    ensures
        assets_of(insts.push(inst)) == assets_of(insts).insert(inst.base@).insert(inst.quote@),
{
    let s = insts.push(inst);
    assert forall|a: Seq<char>| assets_of(s).contains(a) implies assets_of(insts).insert(inst.base@).insert(inst.quote@).contains(a) by {
        let i = choose|i: int| 0 <= i < s.len() && (#[trigger] s[i].base@ == a || s[i].quote@ == a);
        if i < insts.len() {
            assert(insts[i] == s[i]);
        }
    }
    assert forall|a: Seq<char>| assets_of(insts).insert(inst.base@).insert(inst.quote@).contains(a) implies assets_of(s).contains(a) by {
        if a == inst.base@ || a == inst.quote@ {
            let n = insts.len() as int;
            assert(s[n] == inst);
            assert(s[n].base@ == inst.base@ && s[n].quote@ == inst.quote@);
            assert(0 <= n < s.len() && (s[n].base@ == a || s[n].quote@ == a));
        } else {
            let i = choose|i: int| 0 <= i < insts.len() && (#[trigger] insts[i].base@ == a || insts[i].quote@ == a);
            assert(s[i] == insts[i]);
            assert(0 <= i < s.len() && (s[i].base@ == a || s[i].quote@ == a));
        }
    }
    assert(assets_of(s) =~= assets_of(insts).insert(inst.base@).insert(inst.quote@));
}

/// The identifier that the asset map gives `target`, when assets are mapped automatically.
pub open spec fn same_fa(fa: Map<Seq<char>, i32>, auto_map: bool, target: Seq<char>) -> Option<i32> {
    if fa.contains_key(target) && auto_map {
        Some(fa[target])
    } else {
        None
    }
}

impl Instrument {
    /// The instrument is already known: its symbol is a database pair code or a mapped
    /// symbol, or the prefix followed by its symbol is a database pair code.
    pub open spec fn known_in(
        &self,
        db_instruments: Map<Seq<char>, DBInstrument>,
        instrument_mapping: Map<Seq<char>, String>,
        prefix: Option<String>,
    ) -> bool {
        ||| db_instruments.contains_key(self.symbol@)
        ||| instrument_mapping.contains_key(self.symbol@)
        ||| (prefix matches Some(p) && db_instruments.contains_key(p@ + self.symbol@))
    }

    /// Checks whether the instrument exists in the database, in the instrument
    /// mapping of the source, or in the database under the source's prefix.
    pub fn exist(
        &self,
        db_instruments: &StringMap<DBInstrument>,
        instrument_mapping: &StringMap<String>,
        prefix: &Option<String>,
    ) -> (r: bool)
        ensures
            r == self.known_in(db_instruments@, instrument_mapping@, *prefix),
    {
        if db_instruments.contains_key(&self.symbol) {
            return true;
        }
        if instrument_mapping.contains_key(&self.symbol) {
            return true;
        }
        if let Some(p) = prefix {
            let generated_name = p.clone().concat(self.symbol.as_str());
            if db_instruments.contains_key(&generated_name) {
                return true;
            }
        }
        false
    }

    /// The identifier of the asset `target` in the asset map `fa`, when assets are
    /// mapped automatically; nothing when the asset is unknown or not mapped.
    pub fn has_same_fa(&self, fa: &StringMap<i32>, auto_map: bool, target: &str) -> (r: Option<i32>)
        ensures
            r == same_fa(fa@, auto_map, target@),
    {
        let key = String::from_str(target);
        match fa.get(&key) {
            Some(v) => {
                if auto_map {
                    return Some(*v);
                }
                None
            },
            None => None,
        }
    }
}


/// An instrument is known exactly when its symbol is a database pair code, or a key
/// of the instrument mapping (whatever the prefix), or, with a prefix, the prefix
/// followed by its symbol is a database pair code.
pub proof fn law_known_instruments(
    inst: Instrument,
    db_instruments: Map<Seq<char>, DBInstrument>,
    instrument_mapping: Map<Seq<char>, String>,
    prefix: Option<String>,
)
    ensures
        db_instruments.contains_key(inst.symbol@) ==> inst.known_in(db_instruments, instrument_mapping, prefix),
        instrument_mapping.contains_key(inst.symbol@) ==> inst.known_in(db_instruments, instrument_mapping, prefix),
        (prefix matches Some(p) && db_instruments.contains_key(p@ + inst.symbol@))
            ==> inst.known_in(db_instruments, instrument_mapping, prefix),
        inst.known_in(db_instruments, instrument_mapping, prefix) ==> {
            ||| db_instruments.contains_key(inst.symbol@)
            ||| instrument_mapping.contains_key(inst.symbol@)
            ||| (prefix matches Some(p) && db_instruments.contains_key(p@ + inst.symbol@))
        },
{
}

} // verus!
