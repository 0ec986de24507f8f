//! The Paxos source.
use vstd::prelude::*;
use vstd::string::*;

use super::rest_source::{Exchange, Normalizer, RestSource};
use super::Src;
use crate::collections::StringMap;

verus! {

/// The exchange code of Paxos in the database.
pub const CODE: &'static str = "itbi";
/// The name that the Paxos source is registered under.
pub const NAME: &'static str = "paxos";

/// The Paxos source.
pub struct Paxos;

/// The source reads Paxos, stores lowercased symbols, and knows the Paxos bitcoin
/// markets under their `XBT` names.
pub open spec fn is_paxos_source(s: RestSource) -> bool {
    &&& s.asset_mapping is None
    &&& s.code@ == "itbi"@
    &&& s.get_from_exchange == Exchange::Paxos
    &&& s.name@ == "paxos"@
    &&& s.normalizer == Normalizer::Lowercase
    &&& s.prefix is None
    &&& s.regex is None
    &&& s.instrument_mapping@.dom() == set!["BTCEUR"@, "BTCSGD"@, "BTCUSD"@]
    &&& s.instrument_mapping@["BTCEUR"@]@ == "XBTEUR"@
    &&& s.instrument_mapping@["BTCSGD"@]@ == "XBTSGD"@
    &&& s.instrument_mapping@["BTCUSD"@]@ == "XBTUSD"@
}

impl Src<RestSource> for Paxos {
    fn get_source() -> (r: RestSource)
        ensures
            is_paxos_source(r),
    {
        let mut instrument_mapping = StringMap::new();
        let eur = String::from_str("XBTEUR");
        let sgd = String::from_str("XBTSGD");
        let usd = String::from_str("XBTUSD");
        instrument_mapping.insert(String::from_str("BTCEUR"), eur);
        instrument_mapping.insert(String::from_str("BTCSGD"), sgd);
        instrument_mapping.insert(String::from_str("BTCUSD"), usd);
        proof {
            reveal_strlit("BTCEUR");
            reveal_strlit("BTCSGD");
            reveal_strlit("BTCUSD");
            assert("BTCEUR"@[3] != "BTCSGD"@[3]);
            assert("BTCEUR"@[3] != "BTCUSD"@[3]);
            assert("BTCSGD"@[3] != "BTCUSD"@[3]);
            assert(instrument_mapping@["BTCEUR"@] == eur);
            assert(instrument_mapping@["BTCSGD"@] == sgd);
            assert(instrument_mapping@.dom() =~= set!["BTCEUR"@, "BTCSGD"@, "BTCUSD"@]);
        }
        RestSource {
            asset_mapping: None,
            code: String::from_str(CODE),
            get_from_exchange: Exchange::Paxos,
            instrument_mapping,
            name: String::from_str(NAME),
            normalizer: Normalizer::Lowercase,
            prefix: None,
            regex: None,
        }
    }
}

} // verus!
