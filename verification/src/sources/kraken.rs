//! The Kraken source.
use vstd::prelude::*;
use vstd::string::*;

use super::rest_source::{Exchange, Normalizer, RestSource};
use super::Src;
use crate::collections::StringMap;

verus! {

/// The exchange code of Kraken in the database.
pub const CODE: &'static str = "krkn";
/// The name that the Kraken source is registered under.
pub const NAME: &'static str = "kraken";

/// The Kraken source.
pub struct Kraken;

/// The source reads Kraken and stores lowercased symbols.
pub open spec fn is_kraken_source(s: RestSource) -> bool {
    &&& s.asset_mapping is None
    &&& s.code@ == "krkn"@
    &&& s.get_from_exchange == Exchange::Kraken
    &&& s.name@ == "kraken"@
    &&& s.normalizer == Normalizer::Lowercase
    &&& s.prefix is None
    &&& s.regex is None
    &&& s.instrument_mapping@ == Map::<Seq<char>, String>::empty()
}

impl Src<RestSource> for Kraken {
    fn get_source() -> (r: RestSource)
        ensures
            is_kraken_source(r),
    {
        RestSource {
            asset_mapping: None,
            code: String::from_str(CODE),
            get_from_exchange: Exchange::Kraken,
            instrument_mapping: StringMap::new(),
            name: String::from_str(NAME),
            normalizer: Normalizer::Lowercase,
            prefix: None,
            regex: None,
        }
    }
}

} // verus!
