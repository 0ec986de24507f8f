//! The Deribit source.
use vstd::prelude::*;
use vstd::string::*;

use super::rest_source::{Exchange, Normalizer, RestSource};
use super::Src;
use crate::collections::StringMap;

verus! {

/// The exchange code of Deribit in the database.
pub const CODE: &'static str = "drbt";
/// The name that the Deribit source is registered under.
pub const NAME: &'static str = "deribit";
/// What the Deribit source strips from symbols: a slash followed by a dash or an underscore.
pub const SEPARATOR_PATTERN: &'static str = "/[-_]";

/// The Deribit source.
pub struct Deribit;

/// The source reads Deribit and stores symbols stripped of `SEPARATOR_PATTERN`'s
/// matches and lowercased.
pub open spec fn is_deribit_source(s: RestSource) -> bool {
    &&& s.asset_mapping is None
    &&& s.code@ == "drbt"@
    &&& s.get_from_exchange == Exchange::Deribit
    &&& s.name@ == "deribit"@
    &&& s.normalizer == Normalizer::StripPatternLowercase
    &&& s.prefix is None
    &&& s.regex matches Some(r) && r@ == "/[-_]"@
    &&& s.instrument_mapping@ == Map::<Seq<char>, String>::empty()
}

impl Src<RestSource> for Deribit {
    fn get_source() -> (r: RestSource)
        ensures
            is_deribit_source(r),
    {
        RestSource {
            asset_mapping: None,
            code: String::from_str(CODE),
            get_from_exchange: Exchange::Deribit,
            instrument_mapping: StringMap::new(),
            name: String::from_str(NAME),
            normalizer: Normalizer::StripPatternLowercase,
            prefix: None,
            regex: Some(String::from_str(SEPARATOR_PATTERN)),
        }
    }
}

} // verus!
