//! Instruments as stored in the database.
use vstd::prelude::*;

use crate::collections::StringMap;

verus! {

/// An instrument row of the database.
#[derive(Debug, Clone)]
pub struct Instrument {
    pub id: Option<i32>,
    pub base_id: Option<i32>,
    pub quote_id: Option<i32>,
    pub symbol: Option<String>,
    pub raw_symbol: Option<String>,
    pub class: Option<String>,
}

/// The database instrument, under the name the sources give it. Its fields name the
/// columns as follows: `id` is `InstrumentId`, `base_id` is `BaseAssetId`, `quote_id`
/// is `QuoteAssetId`, `symbol` is `KaikoLegacySymbol` as read (a new row writes it as
/// `ExchangePairCode`, see `insert_row`), `raw_symbol` is `ExchangePairCode` as read,
/// and `class` is `Class`.
pub type DBInstrument = Instrument;

impl Default for Instrument {
    fn default() -> (r: Self)
        ensures
            r.id is None,
            r.base_id is None,
            r.quote_id is None,
            r.symbol is None,
            r.raw_symbol is None,
            r.class is None,
    {
        Instrument { id: None, base_id: None, quote_id: None, symbol: None, raw_symbol: None, class: None }
    }
}

/// The text of an optional string; empty when absent.
pub open spec fn text_or_empty(s: Option<String>) -> Seq<char> {
    match s {
        Some(t) => t@,
        None => Seq::empty(),
    }
}

/// The map from exchange pair code to instrument that a list of rows describes;
/// a row without a pair code is filed under the empty code, and a later row
/// overrides an earlier one with the same code.
pub open spec fn instruments_index(rows: Seq<Instrument>) -> Map<Seq<char>, Instrument>
    decreases rows.len(),
{
    if rows.len() == 0 {
        Map::empty()
    } else {
        instruments_index(rows.drop_last()).insert(text_or_empty(rows.last().raw_symbol), rows.last())
    }
}

/// The values of one new row of the `Instruments` table, in the order of its columns
/// `ExchangeCode`, `ExchangePairCode`, `KaikoLegacySymbol`, `BaseAssetId`,
/// `QuoteAssetId`, `Class`, `TradeCount`, `TradeCompressedSize`.
#[derive(Debug)]
pub struct InstrumentRow {
    pub exchange_code: String,
    pub exchange_pair_code: Option<String>,
    pub legacy_symbol: String,
    pub base_asset_id: Option<i32>,
    pub quote_asset_id: Option<i32>,
    pub class: Option<String>,
    pub trade_count: i64,
    pub trade_compressed_size: i64,
}

impl Instrument {
    /// Indexes the instrument rows read from the database by their exchange pair code.
    pub fn index_by_raw_symbol(rows: Vec<Instrument>) -> (m: StringMap<Instrument>)
        ensures
            m@ == instruments_index(rows@),
    {
        let mut m = StringMap::new();
        let ghost all = rows@;
        for row in it: rows
            invariant
                all == it.seq(),
                m@ == instruments_index(all.take(it.index() as int)),
        {
            let key = match &row.raw_symbol {
                Some(s) => s.clone(),
                None => String::new(),
            };
            proof {
                assert(all.take(it.index() + 1).drop_last() =~= all.take(it.index() as int));
            }
            m.insert(key, row);
        }
        assert(all.take(all.len() as int) =~= all);
        m
    }

    /// The row that inserting this instrument writes, for the exchange `exch_code`
    /// and the normalized symbol `normalized_symbol`.
    pub fn insert_row(self, exch_code: String, normalized_symbol: String) -> (r: InstrumentRow)
        ensures
            r.exchange_code == exch_code,
            r.exchange_pair_code == self.symbol,
            r.legacy_symbol == normalized_symbol,
            r.base_asset_id == self.base_id,
            r.quote_asset_id == self.quote_id,
            r.class == self.class,
            r.trade_count == 0,
            r.trade_compressed_size == 0,
    {
        InstrumentRow {
            exchange_code: exch_code,
            exchange_pair_code: self.symbol,
            legacy_symbol: normalized_symbol,
            base_asset_id: self.base_id,
            quote_asset_id: self.quote_id,
            class: self.class,
            trade_count: 0,
            trade_compressed_size: 0,
        }
    }
}


/// The index of the database rows is keyed by pair code alone: a row without a pair
/// code is filed under the empty key, a row with one under that code, and every key
/// of the index, and the row filed under it, comes from some row's pair code (no key
/// comes from another column).
pub proof fn law_index_keys_are_pair_codes(rows: Seq<Instrument>, k: Seq<char>)
    ensures
        forall|j: int| 0 <= j < rows.len() && (#[trigger] rows[j]).raw_symbol is None
            ==> instruments_index(rows).contains_key(Seq::<char>::empty()),
        forall|j: int| 0 <= j < rows.len() && (#[trigger] rows[j]).raw_symbol is Some
            ==> instruments_index(rows).contains_key(rows[j].raw_symbol.unwrap()@),
        instruments_index(rows).contains_key(k) ==> {
            let row = instruments_index(rows)[k];
            &&& exists|j: int| 0 <= j < rows.len() && #[trigger] rows[j] == row
            &&& ((row.raw_symbol matches Some(s) && s@ == k) || (row.raw_symbol is None && k.len() == 0))
        },
    decreases rows.len(),
{
    if rows.len() > 0 {
        let init = rows.drop_last();
        law_index_keys_are_pair_codes(init, k);
        assert forall|j: int| 0 <= j < rows.len() && (#[trigger] rows[j]).raw_symbol is None
            implies instruments_index(rows).contains_key(Seq::<char>::empty()) by {
            if j < init.len() {
                assert(init[j] == rows[j]);
            }
        }
        assert forall|j: int| 0 <= j < rows.len() && (#[trigger] rows[j]).raw_symbol is Some
            implies instruments_index(rows).contains_key(rows[j].raw_symbol.unwrap()@) by {
            if j < init.len() {
                assert(init[j] == rows[j]);
            }
        }
        if instruments_index(rows).contains_key(k) {
            if k == text_or_empty(rows.last().raw_symbol) {
                assert(rows[rows.len() - 1] == instruments_index(rows)[k]);
            } else {
                let row = instruments_index(init)[k];
                let j = choose|j: int| 0 <= j < init.len() && #[trigger] init[j] == row;
                assert(rows[j] == row);
            }
        }
    }
}

} // verus!
