//! A source that reads an exchange over REST and prepares the instruments to insert.
use vstd::prelude::*;
use vstd::string::*;

use super::SourceOps;
use crate::cli::options::CliArgs;
use crate::collections::{lemma_push_to_set, views_of, StringMap, StringSet};
use crate::database::instrument::{instruments_index, Instrument as DBInstrument};
use crate::error::FoxsurError;
use crate::instruments::{same_fa, Instrument};
use crate::pattern::{compile, error_text, regex_replaced, replace_all, Pattern};
use crate::text::{lowercase, to_lowercase};

verus! {

/// The exchange whose instruments a source reads.
#[derive(Debug, Clone, Copy, PartialEq, Eq, Structural)]
pub enum Exchange {
    Paxos,
    Deribit,
    Kraken,
    /// No exchange: no instruments and no assets (`NoExchangeHandler`).
    Unset,
}

/// How a source turns an exchange symbol into the symbol stored in the database.
#[derive(Debug, Clone, Copy, PartialEq, Eq, Structural)]
pub enum Normalizer {
    /// The symbol as it is.
    Verbatim,
    /// The lowercased symbol.
    Lowercase,
    /// The symbol without the matches of the source's pattern, lowercased;
    /// only lowercased when the source has no pattern.
    StripPatternLowercase,
}

/// A source that fetches assets and instruments from an exchange, compares them with
/// the ones stored in the database and prepares the new rows to insert.
pub struct RestSource {
    pub asset_mapping: Option<StringMap<String>>,
    pub code: String,
    pub get_from_exchange: Exchange,
    pub instrument_mapping: StringMap<String>,
    pub name: String,
    pub normalizer: Normalizer,
    pub prefix: Option<String>,
    pub regex: Option<String>,
}

impl Default for RestSource {
    fn default() -> (r: Self)
        ensures
            r.asset_mapping is None,
            r.code@ == Seq::<char>::empty(),
            r.get_from_exchange == Exchange::Unset,
            r.instrument_mapping@ == Map::<Seq<char>, String>::empty(),
            r.name@ == Seq::<char>::empty(),
            r.normalizer == Normalizer::Verbatim,
            r.prefix is None,
            r.regex is None,
    {
        RestSource {
            asset_mapping: None,
            code: String::new(),
            get_from_exchange: Exchange::Unset,
            instrument_mapping: StringMap::new(),
            name: String::new(),
            normalizer: Normalizer::Verbatim,
            prefix: None,
            regex: None,
        }
    }
}

/// The text of a compiled pattern, if any.
pub open spec fn pattern_text(re: Option<Pattern>) -> Option<Seq<char>> {
    match re {
        Some(p) => Some(p@),
        None => None,
    }
}

/// The new rows, with the symbols they are stored under, as texts.
pub open spec fn payload_views(v: Seq<(DBInstrument, String)>) -> Seq<(DBInstrument, Seq<char>)> {
    v.map_values(|e: (DBInstrument, String)| (e.0, e.1@))
}

impl RestSource {
    /// The database code that the asset mapping gives a lowercased asset, if any.
    pub open spec fn mapped_asset(&self, asset_lc: Seq<char>) -> Option<Seq<char>> {
        match self.asset_mapping {
            Some(m) => if m@.contains_key(asset_lc) { Some(m@[asset_lc]@) } else { None },
            None => None,
        }
    }

    /// The database identifier of a lowercased exchange asset: that of its mapped code
    /// when the mapping has it, else its own; 0 when the database does not know the code.
    /// An unknown asset thus still has an identifier, 0, and a new row that trades it
    /// is written with asset id 0 when assets are mapped automatically.
    pub open spec fn lowercased_asset_id(&self, db_asset: Map<Seq<char>, i32>, asset_lc: Seq<char>) -> i32 {
        let key = match self.mapped_asset(asset_lc) {
            Some(t) => t,
            None => asset_lc,
        };
        if db_asset.contains_key(key) { db_asset[key] } else { 0 }
    }

    /// A lowercased exchange asset is unknown when neither the mapping nor the database has it.
    pub open spec fn is_unknown_lowercased(&self, db_asset: Map<Seq<char>, i32>, asset_lc: Seq<char>) -> bool {
        self.mapped_asset(asset_lc) is None && !db_asset.contains_key(asset_lc)
    }

    /// The database identifier of an exchange asset, found by its lowercase.
    pub open spec fn asset_id(&self, db_asset: Map<Seq<char>, i32>, asset: Seq<char>) -> i32 {
        self.lowercased_asset_id(db_asset, lowercase(asset))
    }

    /// The identifiers of all exchange assets, keyed by the asset as the exchange writes it.
    pub open spec fn asset_ids(&self, db_asset: Map<Seq<char>, i32>, assets: Set<Seq<char>>) -> Map<Seq<char>, i32> {
        Map::new(|a: Seq<char>| assets.contains(a), |a: Seq<char>| self.asset_id(db_asset, a))
    }

    /// An exchange asset is unknown when its lowercase is.
    pub open spec fn is_unknown_asset(&self, db_asset: Map<Seq<char>, i32>, asset: Seq<char>) -> bool {
        self.is_unknown_lowercased(db_asset, lowercase(asset))
    }

    /// The lowercases of the unknown exchange assets.
    pub open spec fn unknown_assets(&self, db_asset: Map<Seq<char>, i32>, assets: Set<Seq<char>>) -> Set<Seq<char>> {
        assets.filter(|a: Seq<char>| self.is_unknown_asset(db_asset, a)).map(|a: Seq<char>| lowercase(a))
    }

    /// The symbol that the source stores for the exchange symbol `symbol`, given the
    /// text of its compiled pattern.
    pub open spec fn normalized(&self, symbol: Seq<char>, re: Option<Seq<char>>) -> Seq<char> {
        match self.normalizer {
            Normalizer::Verbatim => symbol,
            Normalizer::Lowercase => lowercase(symbol),
            Normalizer::StripPatternLowercase => match re {
                Some(p) => lowercase(regex_replaced(p, symbol, Seq::empty())),
                None => lowercase(symbol),
            },
        }
    }

    /// The row prepared for a new instrument.
    pub open spec fn new_row(&self, inst: Instrument, fa: Map<Seq<char>, i32>, auto_map: bool) -> DBInstrument {
        DBInstrument {
            id: None,
            base_id: same_fa(fa, auto_map, inst.base@),
            quote_id: same_fa(fa, auto_map, inst.quote@),
            symbol: Some(inst.symbol),
            raw_symbol: None,
            class: inst.class,
        }
    }

    /// The rows prepared for the instruments that are not known yet, in their order,
    /// each with its normalized symbol.
    pub open spec fn payloads(
        &self,
        insts: Seq<Instrument>,
        db_insts: Map<Seq<char>, DBInstrument>,
        fa: Map<Seq<char>, i32>,
        auto_map: bool,
        re: Option<Seq<char>>,
    ) -> Seq<(DBInstrument, Seq<char>)>
        decreases insts.len(),
    {
        if insts.len() == 0 {
            Seq::empty()
        } else {
            let rest = self.payloads(insts.drop_last(), db_insts, fa, auto_map, re);
            let last = insts.last();
            if last.known_in(db_insts, self.instrument_mapping@, self.prefix) {
                rest
            } else {
                rest.push((self.new_row(last, fa, auto_map), self.normalized(last.symbol@, re)))
            }
        }
    }

    /// The number of instruments that are known already.
    pub open spec fn known_count(&self, insts: Seq<Instrument>, db_insts: Map<Seq<char>, DBInstrument>) -> nat
        decreases insts.len(),
    {
        if insts.len() == 0 {
            0
        } else {
            self.known_count(insts.drop_last(), db_insts)
                + if insts.last().known_in(db_insts, self.instrument_mapping@, self.prefix) { 1nat } else { 0nat }
        }
    }

    /// Compiles the source's pattern, if it has one.
    pub fn compile_regex(&self) -> (r: Result<Option<Pattern>, FoxsurError>)
        ensures
            self.regex is None ==> r matches Ok(None),
            self.regex matches Some(rg) ==> {
                &&& crate::pattern::regex_accepts(rg@) ==> (r matches Ok(Some(p)) && p@ == rg@)
                &&& !crate::pattern::regex_accepts(rg@) ==> r matches Err(FoxsurError::InvalidRegex(_))
            },
    {
        match &self.regex {
            Some(rg) => match compile(rg) {
                Ok(p) => Ok(Some(p)),
                Err(e) => Err(FoxsurError::InvalidRegex(error_text(&e))),
            },
            None => Ok(None),
        }
    }

    /// The database identifier of a lowercased exchange asset, and whether it is unknown.
    pub fn asset_lookup(&self, db_asset: &StringMap<i32>, asset_lc: &String) -> (r: (i32, bool))
        ensures
            r.0 == self.lowercased_asset_id(db_asset@, asset_lc@),
            r.1 == self.is_unknown_lowercased(db_asset@, asset_lc@),
    {
        let mut mapped: Option<&String> = None;
        if let Some(asset_mapping) = &self.asset_mapping {
            mapped = asset_mapping.get(asset_lc);
        }
        match mapped {
            Some(am) => {
                let id = match db_asset.get(am) {
                    Some(v) => *v,
                    None => 0,
                };
                (id, false)
            },
            None => {
                let id = match db_asset.get(asset_lc) {
                    Some(v) => *v,
                    None => 0,
                };
                (id, !db_asset.contains_key(asset_lc))
            },
        }
    }

    /// The symbol that the source stores for the exchange symbol `symbol`.
    pub fn normalize(&self, symbol: &str, re: &Option<Pattern>) -> (r: String)
        ensures
            r@ == self.normalized(symbol@, pattern_text(*re)),
    {
        match self.normalizer {
            Normalizer::Verbatim => String::from_str(symbol),
            Normalizer::Lowercase => to_lowercase(symbol),
            Normalizer::StripPatternLowercase => match re {
                Some(p) => {
                    let stripped = replace_all(p, symbol, "");
                    proof { reveal_strlit(""); }
                    assert(""@ =~= Seq::<char>::empty());
                    to_lowercase(stripped.as_str())
                },
                None => to_lowercase(symbol),
            },
        }
    }
}


proof fn lemma_take_push_to_set(s: Seq<Seq<char>>, i: int)
    requires
        0 <= i < s.len(),
    ensures
        s.take(i + 1).to_set() == s.take(i).to_set().insert(s[i]),
{
    assert(s.take(i + 1) =~= s.take(i).push(s[i]));
    lemma_push_to_set(s.take(i), s[i]);
}

impl RestSource {
    proof fn lemma_asset_ids_insert(&self, db_asset: Map<Seq<char>, i32>, assets: Set<Seq<char>>, a: Seq<char>)
        ensures
            self.asset_ids(db_asset, assets.insert(a)) == self.asset_ids(db_asset, assets).insert(a, self.asset_id(db_asset, a)),
    {
        assert(self.asset_ids(db_asset, assets.insert(a)) =~= self.asset_ids(db_asset, assets).insert(a, self.asset_id(db_asset, a)));
    }

    proof fn lemma_unknown_assets_insert(&self, db_asset: Map<Seq<char>, i32>, assets: Set<Seq<char>>, a: Seq<char>)
        ensures
            self.is_unknown_asset(db_asset, a) ==> self.unknown_assets(db_asset, assets.insert(a))
                == self.unknown_assets(db_asset, assets).insert(lowercase(a)),
            !self.is_unknown_asset(db_asset, a) ==> self.unknown_assets(db_asset, assets.insert(a))
                == self.unknown_assets(db_asset, assets),
    {
        let f = |x: Seq<char>| self.is_unknown_asset(db_asset, x);
        let g = |x: Seq<char>| lowercase(x);
        let big = assets.insert(a).filter(f);
        let small = assets.filter(f);
        if f(a) {
            assert(big =~= small.insert(a));
            assert(big.map(g) =~= small.map(g).insert(g(a))) by {
                assert forall|y: Seq<char>| big.map(g).contains(y) implies small.map(g).insert(g(a)).contains(y) by {
                    let x = choose|x: Seq<char>| big.contains(x) && g(x) == y;
                    if x != a {
                        assert(small.contains(x));
                    }
                }
                assert forall|y: Seq<char>| small.map(g).insert(g(a)).contains(y) implies big.map(g).contains(y) by {
                    if y == g(a) {
                        assert(big.contains(a));
                    } else {
                        let x = choose|x: Seq<char>| small.contains(x) && g(x) == y;
                        assert(big.contains(x));
                    }
                }
            }
        } else {
            assert(big =~= small);
        }
    }
}

impl SourceOps for RestSource {
    /// `re` is what the source's pattern compiles to: nothing without a pattern, else
    /// a pattern with the same text.
    open spec fn compiled_pattern(&self, re: Option<Pattern>) -> bool {
        pattern_text(re) == match self.regex {
            Some(r) => Some(r@),
            None => None,
        }
    }

    /// Compares the exchange's assets and instruments with the database, and prepares
    /// a row for every instrument that is not known yet.
    ///
    /// Returns the new rows with their normalized symbols, the number of instruments
    /// that are known already and the number of exchange assets that are unknown.
    /// `re` is the source's pattern as `compile_regex` compiled it; a source whose
    /// pattern does not compile is refused there, before the exchange is read.
    /// Unknown assets get identifier 0 in the rows.
    fn fetch(
        &self,
        db_asset: StringMap<i32>,
        db_insts: StringMap<DBInstrument>,
        opts: &CliArgs,
        re: &Option<Pattern>,
        exchange: (Vec<Instrument>, StringSet),
    ) -> (r: (Vec<(DBInstrument, String)>, i64, usize))
        ensures
            payload_views(r.0@) == self.payloads(
                exchange.0@,
                db_insts@,
                self.asset_ids(db_asset@, exchange.1@),
                opts.auto_map,
                pattern_text(*re),
            ),
            r.1 == self.known_count(exchange.0@, db_insts@),
            r.2 == self.unknown_assets(db_asset@, exchange.1@).len(),
    {
        let (instruments, assets) = exchange;
        let mut fa: StringMap<i32> = StringMap::new();
        let mut not_found = StringSet::new();
        let elems = assets.elements();
        let ghost av = views_of(elems@);
        proof {
            assert(av.take(0).to_set() =~= Set::<Seq<char>>::empty());
            assert(fa@ =~= self.asset_ids(db_asset@, Set::<Seq<char>>::empty()));
            assert(self.unknown_assets(db_asset@, Set::<Seq<char>>::empty()) =~= Set::<Seq<char>>::empty());
        }
        let mut i: usize = 0;
        while i < elems.len()
            invariant
                i <= elems@.len(),
                av == views_of(elems@),
                av.to_set() == assets@,
                fa@ == self.asset_ids(db_asset@, av.take(i as int).to_set()),
                not_found@ == self.unknown_assets(db_asset@, av.take(i as int).to_set()),
            decreases elems@.len() - i,
        {
            let asset = &elems[i];
            let ghost a = asset@;
            assert(av[i as int] == a);
            let asset_lc = to_lowercase(asset.as_str());
            proof {
                lemma_take_push_to_set(av, i as int);
                self.lemma_asset_ids_insert(db_asset@, av.take(i as int).to_set(), a);
                self.lemma_unknown_assets_insert(db_asset@, av.take(i as int).to_set(), a);
            }
            let (id, unknown) = self.asset_lookup(&db_asset, &asset_lc);
            if unknown {
                not_found.insert(asset_lc);
            }
            fa.insert(asset.clone(), id);
            i = i + 1;
        }
        assert(av.take(elems@.len() as int) =~= av);

        let mut insts: Vec<(DBInstrument, String)> = Vec::new();
        let mut exists_count: i64 = 0;
        let ghost all = instruments@;
        let ghost fa_view = fa@;
        proof {
            assert(all.take(0) =~= Seq::<Instrument>::empty());
            assert(payload_views(insts@) =~= Seq::<(DBInstrument, Seq<char>)>::empty());
        }
        for inst in it: instruments
            invariant
                all == it.seq(),
                all.len() <= i64::MAX,
                fa@ == fa_view,
                exists_count as int <= it.index(),
                payload_views(insts@) == self.payloads(all.take(it.index() as int), db_insts@, fa_view, opts.auto_map, pattern_text(*re)),
                exists_count == self.known_count(all.take(it.index() as int), db_insts@),
        {
            proof {
                assert(all.take(it.index() + 1).drop_last() =~= all.take(it.index() as int));
                assert(all.take(it.index() + 1).last() == inst);
            }
            if inst.exist(&db_insts, &self.instrument_mapping, &self.prefix) {
                exists_count = exists_count + 1;
            } else {
                let bas = inst.has_same_fa(&fa, opts.auto_map, inst.base.as_str());
                let qas = inst.has_same_fa(&fa, opts.auto_map, inst.quote.as_str());
                let normalized_symbol = self.normalize(inst.symbol.as_str(), re);
                let db_inst = DBInstrument {
                    id: None,
                    base_id: bas,
                    quote_id: qas,
                    symbol: Some(inst.symbol),
                    raw_symbol: None,
                    class: inst.class,
                };
                let ghost before = insts@;
                insts.push((db_inst, normalized_symbol));
                assert(payload_views(insts@) =~= payload_views(before).push((db_inst, normalized_symbol@)));
            }
        }
        assert(all.take(all.len() as int) =~= all);
        (insts, exists_count, not_found.len())
    }

    fn get_code(&self) -> (r: String)
        ensures
            r@ == self.code@,
    {
        self.code.clone()
    }

    fn get_name(&self) -> (r: String)
        ensures
            r@ == self.name@,
    {
        self.name.clone()
    }
}


/// Every instrument that the exchange lists is either counted as known or gets
/// exactly one new row.
pub proof fn law_every_instrument_accounted(
    source: RestSource,
    insts: Seq<Instrument>,
    db_insts: Map<Seq<char>, DBInstrument>,
    fa: Map<Seq<char>, i32>,
    auto_map: bool,
    re: Option<Seq<char>>,
)
    ensures
        source.known_count(insts, db_insts) + source.payloads(insts, db_insts, fa, auto_map, re).len() == insts.len(),
    decreases insts.len(),
{
    if insts.len() > 0 {
        law_every_instrument_accounted(source, insts.drop_last(), db_insts, fa, auto_map, re);
    }
}

/// Every new row stands for a listed instrument that is not known yet, carries its
/// symbol and class, and is stored under that instrument's normalized symbol.
pub proof fn law_new_rows_come_from_unknown_instruments(
    source: RestSource,
    insts: Seq<Instrument>,
    db_insts: Map<Seq<char>, DBInstrument>,
    fa: Map<Seq<char>, i32>,
    auto_map: bool,
    re: Option<Seq<char>>,
    k: int,
)
    requires
        0 <= k < source.payloads(insts, db_insts, fa, auto_map, re).len(),
    ensures
        exists|j: int| #![trigger insts[j]]
            0 <= j < insts.len()
            && !insts[j].known_in(db_insts, source.instrument_mapping@, source.prefix)
            && source.payloads(insts, db_insts, fa, auto_map, re)[k]
                == (source.new_row(insts[j], fa, auto_map), source.normalized(insts[j].symbol@, re)),
    decreases insts.len(),
{
    let rest = source.payloads(insts.drop_last(), db_insts, fa, auto_map, re);
    if k < rest.len() {
        law_new_rows_come_from_unknown_instruments(source, insts.drop_last(), db_insts, fa, auto_map, re, k);
        let j = choose|j: int| #![trigger insts.drop_last()[j]]
            0 <= j < insts.drop_last().len()
            && !insts.drop_last()[j].known_in(db_insts, source.instrument_mapping@, source.prefix)
            && rest[k] == (source.new_row(insts.drop_last()[j], fa, auto_map), source.normalized(insts.drop_last()[j].symbol@, re));
        assert(insts[j] == insts.drop_last()[j]);
    } else {
        let j = insts.len() - 1;
        assert(insts[j] == insts.last());
    }
}

/// Without automatic mapping, no new row carries an asset identifier.
pub proof fn law_no_asset_ids_without_auto_map(
    source: RestSource,
    insts: Seq<Instrument>,
    db_insts: Map<Seq<char>, DBInstrument>,
    fa: Map<Seq<char>, i32>,
    re: Option<Seq<char>>,
)
    ensures
        forall|k: int| 0 <= k < source.payloads(insts, db_insts, fa, false, re).len() ==> {
            &&& (#[trigger] source.payloads(insts, db_insts, fa, false, re)[k]).0.base_id is None
            &&& source.payloads(insts, db_insts, fa, false, re)[k].0.quote_id is None
        },
    decreases insts.len(),
{
    if insts.len() > 0 {
        law_no_asset_ids_without_auto_map(source, insts.drop_last(), db_insts, fa, re);
    }
}

/// There are at most as many unknown assets as the exchange lists assets.
pub proof fn law_unknown_assets_bounded(source: RestSource, db_asset: Map<Seq<char>, i32>, assets: Set<Seq<char>>)
    requires
        assets.finite(),
    ensures
        source.unknown_assets(db_asset, assets).finite(),
        source.unknown_assets(db_asset, assets).len() <= assets.len(),
{
    let f = |a: Seq<char>| source.is_unknown_asset(db_asset, a);
    let g = |a: Seq<char>| lowercase(a);
    assets.lemma_len_filter(f);
    vstd::set_lib::lemma_map_size_bound(assets.filter(f), assets.filter(f).map(g), g);
}


/// Once the database holds a row whose pair code is an instrument's symbol, that
/// instrument is known: a later run prepares no new row for it.
pub proof fn law_stored_symbols_are_known(
    rows: Seq<DBInstrument>,
    inst: Instrument,
    instrument_mapping: Map<Seq<char>, String>,
    prefix: Option<String>,
    j: int,
)
    requires
        0 <= j < rows.len(),
        rows[j].raw_symbol matches Some(s) && s@ == inst.symbol@,
    ensures
        inst.known_in(instruments_index(rows), instrument_mapping, prefix),
    decreases rows.len(),
{
    if j < rows.len() - 1 {
        law_stored_symbols_are_known(rows.drop_last(), inst, instrument_mapping, prefix, j);
    }
}


/// Every new row is the row of an unlisted-before instrument: its symbol is that
/// instrument's own symbol (whatever its raw symbol), its class is the instrument's
/// class, it has no id and no pair code of its own, and its asset ids are those the
/// asset map gives the instrument's base and quote when assets are mapped
/// automatically; the instrument's symbol is neither a database pair code nor a
/// mapped symbol.
pub proof fn law_new_row_carries_listing(
    source: RestSource,
    insts: Seq<Instrument>,
    db_insts: Map<Seq<char>, DBInstrument>,
    fa: Map<Seq<char>, i32>,
    auto_map: bool,
    re: Option<Seq<char>>,
    k: int,
)
    requires
        0 <= k < source.payloads(insts, db_insts, fa, auto_map, re).len(),
    ensures
        exists|j: int| #![trigger insts[j]]
            0 <= j < insts.len() && {
                let row = source.payloads(insts, db_insts, fa, auto_map, re)[k].0;
                &&& row.symbol == Some(insts[j].symbol)
                &&& row.class == insts[j].class
                &&& row.id is None
                &&& row.raw_symbol is None
                &&& row.base_id == (if auto_map && fa.contains_key(insts[j].base@) { Some(fa[insts[j].base@]) } else { None })
                &&& row.quote_id == (if auto_map && fa.contains_key(insts[j].quote@) { Some(fa[insts[j].quote@]) } else { None })
                &&& !db_insts.contains_key(insts[j].symbol@)
                &&& !source.instrument_mapping@.contains_key(insts[j].symbol@)
            },
{
    law_new_rows_come_from_unknown_instruments(source, insts, db_insts, fa, auto_map, re, k);
    let j = choose|j: int| #![trigger insts[j]]
        0 <= j < insts.len()
        && !insts[j].known_in(db_insts, source.instrument_mapping@, source.prefix)
        && source.payloads(insts, db_insts, fa, auto_map, re)[k]
            == (source.new_row(insts[j], fa, auto_map), source.normalized(insts[j].symbol@, re));
    crate::instruments::law_known_instruments(insts[j], db_insts, source.instrument_mapping@, source.prefix);
}

/// A new row, once written (its symbol becomes the pair code, see `insert_row`) and
/// read back among the database rows, makes every listing with that symbol known on
/// the next fetch, whatever its raw symbol.
pub proof fn law_written_row_is_known_next_time(
    source: RestSource,
    insts: Seq<Instrument>,
    db_insts: Map<Seq<char>, DBInstrument>,
    fa: Map<Seq<char>, i32>,
    auto_map: bool,
    re: Option<Seq<char>>,
    k: int,
    rows: Seq<DBInstrument>,
    i: int,
    listing: Instrument,
)
    requires
        0 <= k < source.payloads(insts, db_insts, fa, auto_map, re).len(),
        0 <= i < rows.len(),
        rows[i].raw_symbol == source.payloads(insts, db_insts, fa, auto_map, re)[k].0.symbol,
        source.payloads(insts, db_insts, fa, auto_map, re)[k].0.symbol matches Some(s) && listing.symbol@ == s@,
    ensures
        instruments_index(rows).contains_key(listing.symbol@),
        listing.known_in(instruments_index(rows), source.instrument_mapping@, source.prefix),
{
    law_stored_symbols_are_known(rows, listing, source.instrument_mapping@, source.prefix, i);
    crate::database::instrument::law_index_keys_are_pair_codes(rows, listing.symbol@);
    assert(rows[i].raw_symbol is Some);
}

/// A lowercased asset that the asset mapping maps to a code takes the database
/// identifier of that code (0 when absent), whatever the database holds under the
/// asset's own code, and is not unknown; an unmapped one takes its own database
/// identifier (0 when absent) and is unknown exactly when the database lacks it.
pub proof fn law_asset_ids_follow_the_mapping(source: RestSource, db_asset: Map<Seq<char>, i32>, asset_lc: Seq<char>)
    ensures
        (source.asset_mapping matches Some(m) && m@.contains_key(asset_lc)) ==> {
            let t = source.asset_mapping.unwrap()@[asset_lc]@;
            &&& source.lowercased_asset_id(db_asset, asset_lc) == (if db_asset.contains_key(t) { db_asset[t] } else { 0 })
            &&& !source.is_unknown_lowercased(db_asset, asset_lc)
        },
        !(source.asset_mapping matches Some(m) && m@.contains_key(asset_lc)) ==> {
            &&& source.lowercased_asset_id(db_asset, asset_lc) == (if db_asset.contains_key(asset_lc) { db_asset[asset_lc] } else { 0 })
            &&& source.is_unknown_lowercased(db_asset, asset_lc) == !db_asset.contains_key(asset_lc)
        },
{
}

} // verus!
