use foxsur::cli::options::{CliArgs, DatabaseOpts};
use foxsur::cli::{after_fetch, AfterFetch, Cli};
use foxsur::collections::{StringMap, StringSet};
use foxsur::database::instrument::DBInstrument;
use foxsur::error::FoxsurError;
use foxsur::instruments::Instrument;
use foxsur::sources::deribit::Deribit;
use foxsur::sources::kraken::Kraken;
use foxsur::sources::paxos::Paxos;
use foxsur::sources::rest_source::{Exchange, Normalizer, RestSource};
use foxsur::sources::{SourceOps, Sources, Src};

fn s(t: &str) -> String {
    t.to_string()
}

fn args(source: &str, auto_map: bool) -> CliArgs {
    CliArgs {
        max_con: 10,
        auto_map,
        database: DatabaseOpts { host: s("localhost"), username: s("u"), password: s("p"), database: s("foxsur") },
        source: s(source),
        slack: None,
    }
}

fn inst(symbol: &str, base: &str, quote: &str) -> Instrument {
    Instrument { symbol: s(symbol), base: s(base), quote: s(quote), class: Some(s("spot")), raw_symbol: None }
}

#[test]
fn paxos_source_maps_bitcoin_markets() {
    let p = Paxos::get_source();
    assert_eq!(p.get_code(), "itbi");
    assert_eq!(p.get_name(), "paxos");
    assert_eq!(p.get_from_exchange, Exchange::Paxos);
    assert_eq!(p.normalizer, Normalizer::Lowercase);
    assert_eq!(p.instrument_mapping.get(&s("BTCEUR")), Some(&s("XBTEUR")));
    assert_eq!(p.instrument_mapping.get(&s("BTCSGD")), Some(&s("XBTSGD")));
    assert_eq!(p.instrument_mapping.get(&s("BTCUSD")), Some(&s("XBTUSD")));
    assert!(p.regex.is_none() && p.prefix.is_none() && p.asset_mapping.is_none());
}

#[test]
fn deribit_and_kraken_sources() {
    let d = Deribit::get_source();
    assert_eq!(d.code, "drbt");
    assert_eq!(d.name, "deribit");
    assert_eq!(d.regex, Some(s("/[-_]")));
    assert_eq!(d.normalizer, Normalizer::StripPatternLowercase);
    let k = Kraken::get_source();
    assert_eq!(k.code, "krkn");
    assert_eq!(k.name, "kraken");
    assert_eq!(k.get_from_exchange, Exchange::Kraken);
    assert_eq!(k.normalizer, Normalizer::Lowercase);
}

#[test]
fn default_source_is_empty() {
    let d = RestSource::default();
    assert_eq!(d.code, "");
    assert_eq!(d.name, "");
    assert_eq!(d.get_from_exchange, Exchange::Unset);
    assert_eq!(d.normalizer, Normalizer::Verbatim);
    assert!(d.regex.is_none());
}

#[test]
fn load_gives_back_the_registered_source() {
    let mut sources = Sources::new();
    assert!(sources.load("paxos").is_none());
    sources.register(Paxos::get_source(), "paxos");
    sources.register(Kraken::get_source(), "kraken");
    assert_eq!(sources.load("paxos").unwrap().code, "itbi");
    assert_eq!(sources.load("kraken").unwrap().code, "krkn");
    sources.register(Deribit::get_source(), "paxos");
    assert_eq!(sources.load("paxos").unwrap().code, "drbt");
    assert_eq!(sources.load("kraken").unwrap().code, "krkn");
    assert!(sources.load("deribit").is_none());
}

#[test]
fn registered_sources_of_the_program() {
    let mut cli = Cli { args: args("deribit", true), sources: Sources::new() };
    cli.register_source();
    assert_eq!(cli.target_source().unwrap().code, "drbt");
    assert_eq!(cli.sources.load("paxos").unwrap().code, "itbi");
    let mut other = Cli { args: args("kraken", true), sources: Sources::new() };
    other.register_source();
    assert!(matches!(other.target_source(), Err(FoxsurError::SourceNotFound)));
}

#[test]
fn patterns_compile_or_are_refused() {
    let d = Deribit::get_source();
    let re = d.compile_regex().unwrap();
    assert!(re.is_some());
    assert!(Paxos::get_source().compile_regex().unwrap().is_none());
    let bad = RestSource { regex: Some(s("foo(bar")), ..RestSource::default() };
    match bad.compile_regex() {
        Err(FoxsurError::InvalidRegex(msg)) => {
            assert_eq!(msg, regex::Regex::new("foo(bar").unwrap_err().to_string());
            assert_eq!(FoxsurError::InvalidRegex(msg.clone()).describe(), msg);
        },
        _ => panic!("the pattern must be refused"),
    }
}

#[test]
fn symbols_are_normalized_per_source() {
    let d = Deribit::get_source();
    let re = d.compile_regex().unwrap();
    assert_eq!(d.normalize("BTC/-PERP/_X", &re), "btcperpx");
    assert_eq!(d.normalize("BTC-PERPETUAL", &re), "btc-perpetual");
    assert_eq!(d.normalize("BTC/-PERP", &None), "btc/-perp");
    assert_eq!(Paxos::get_source().normalize("BTCUSD", &None), "btcusd");
    assert_eq!(RestSource::default().normalize("BTCUSD", &None), "BTCUSD");
}

fn exchange(insts: Vec<Instrument>, assets: &[&str]) -> (Vec<Instrument>, StringSet) {
    let mut set = StringSet::new();
    for a in assets {
        set.insert(s(a));
    }
    (insts, set)
}

#[test]
fn fetch_prepares_rows_for_new_instruments() {
    let source = Paxos::get_source();
    let mut db_asset: StringMap<i32> = StringMap::new();
    db_asset.insert(s("btc"), 1);
    db_asset.insert(s("usd"), 2);
    let mut db_insts: StringMap<DBInstrument> = StringMap::new();
    db_insts.insert(s("ETHUSD"), DBInstrument::default());
    let ex = exchange(
        vec![
            inst("BTCUSD", "BTC", "USD"),
            inst("XBTUSD", "BTC", "USD"),
            inst("ETHUSD", "ETH", "USD"),
            inst("BTCEUR", "BTC", "EUR"),
            inst("SOLUSD", "SOL", "USD"),
        ],
        &["BTC", "USD", "ETH", "EUR", "SOL"],
    );
    let (rows, exists, not_found) = source.fetch(db_asset, db_insts, &args("paxos", true), &None, ex);
    assert_eq!(exists, 3);
    assert_eq!(not_found, 3);
    assert_eq!(rows.len(), 2);
    assert_eq!(rows[0].0.symbol, Some(s("XBTUSD")));
    assert_eq!(rows[0].0.base_id, Some(1));
    assert_eq!(rows[0].0.quote_id, Some(2));
    assert_eq!(rows[0].0.class, Some(s("spot")));
    assert_eq!(rows[0].1, "xbtusd");
    assert_eq!(rows[1].0.symbol, Some(s("SOLUSD")));
    assert_eq!(rows[1].0.base_id, Some(0));
    assert_eq!(rows[1].0.quote_id, Some(2));
    assert_eq!(rows[1].1, "solusd");
    assert_eq!(exists as usize + rows.len(), 5);
}

#[test]
fn fetch_without_auto_map_leaves_asset_ids_out() {
    let source = Kraken::get_source();
    let mut db_asset: StringMap<i32> = StringMap::new();
    db_asset.insert(s("xbt"), 9);
    let ex = exchange(vec![inst("XBTEUR", "XBT", "EUR")], &["XBT", "EUR"]);
    let (rows, exists, not_found) = source.fetch(db_asset, StringMap::new(), &args("kraken", false), &None, ex);
    assert_eq!(exists, 0);
    assert_eq!(not_found, 1);
    assert_eq!(rows.len(), 1);
    assert_eq!(rows[0].0.base_id, None);
    assert_eq!(rows[0].0.quote_id, None);
}

#[test]
fn fetch_uses_the_asset_mapping() {
    let mut mapping: StringMap<String> = StringMap::new();
    mapping.insert(s("xbt"), s("btc"));
    let source = RestSource { asset_mapping: Some(mapping), prefix: Some(s("k-")), ..Kraken::get_source() };
    let mut db_asset: StringMap<i32> = StringMap::new();
    db_asset.insert(s("btc"), 1);
    let mut db_insts: StringMap<DBInstrument> = StringMap::new();
    db_insts.insert(s("k-ETHEUR"), DBInstrument::default());
    let ex = exchange(vec![inst("XBTEUR", "XBT", "EUR"), inst("ETHEUR", "ETH", "EUR")], &["XBT", "EUR", "ETH", "eur"]);
    let (rows, exists, not_found) = source.fetch(db_asset, db_insts, &args("kraken", true), &None, ex);
    assert_eq!(exists, 1);
    assert_eq!(not_found, 2);
    assert_eq!(rows.len(), 1);
    assert_eq!(rows[0].0.base_id, Some(1));
    assert_eq!(rows[0].0.quote_id, Some(0));
    assert_eq!(rows[0].1, "xbteur");
}

#[test]
fn fetch_with_deribit_pattern() {
    let source = Deribit::get_source();
    let re = source.compile_regex().unwrap();
    let ex = exchange(vec![inst("BTC/_PERP", "BTC", "USD")], &["BTC", "USD"]);
    let (rows, exists, not_found) = source.fetch(StringMap::new(), StringMap::new(), &args("deribit", true), &re, ex);
    assert_eq!(exists, 0);
    assert_eq!(not_found, 2);
    assert_eq!(rows[0].1, "btcperp");
}

#[test]
fn unknown_assets_never_outnumber_listed_assets() {
    let source = Kraken::get_source();
    let ex = exchange(vec![], &["A", "a", "B"]);
    let (rows, exists, not_found) = source.fetch(StringMap::new(), StringMap::new(), &args("kraken", true), &None, ex);
    assert!(rows.is_empty());
    assert_eq!(exists, 0);
    assert_eq!(not_found, 2);
    assert!(not_found <= 3);
}

#[test]
fn inserted_instrument_is_known_on_the_next_run() {
    let source = Kraken::get_source();
    let first = exchange(vec![inst("XBTEUR", "XBT", "EUR")], &["XBT", "EUR"]);
    let (rows, _, _) = source.fetch(StringMap::new(), StringMap::new(), &args("kraken", true), &None, first);
    assert_eq!(rows.len(), 1);
    let (row, symbol) = rows.into_iter().next().unwrap();
    let written = row.insert_row(source.get_code(), symbol);
    let read_back = DBInstrument {
        id: Some(1),
        base_id: written.base_asset_id,
        quote_id: written.quote_asset_id,
        symbol: Some(written.legacy_symbol.clone()),
        raw_symbol: written.exchange_pair_code.clone(),
        class: written.class.clone(),
    };
    let db_insts = DBInstrument::index_by_raw_symbol(vec![read_back]);
    let second = exchange(vec![inst("XBTEUR", "XBT", "EUR")], &["XBT", "EUR"]);
    let (rows, exists, _) = source.fetch(StringMap::new(), db_insts, &args("kraken", true), &None, second);
    assert!(rows.is_empty());
    assert_eq!(exists, 1);
}

#[test]
fn asset_lookup_follows_the_mapping() {
    let mut mapping: StringMap<String> = StringMap::new();
    mapping.insert(s("xbt"), s("btc"));
    let source = RestSource { asset_mapping: Some(mapping), ..RestSource::default() };
    let mut db_asset: StringMap<i32> = StringMap::new();
    db_asset.insert(s("btc"), 1);
    db_asset.insert(s("eth"), 2);
    assert_eq!(source.asset_lookup(&db_asset, &s("xbt")), (1, false));
    assert_eq!(source.asset_lookup(&db_asset, &s("eth")), (2, false));
    assert_eq!(source.asset_lookup(&db_asset, &s("sol")), (0, true));
    let mut bad: StringMap<String> = StringMap::new();
    bad.insert(s("doge"), s("nothing"));
    let source = RestSource { asset_mapping: Some(bad), ..RestSource::default() };
    assert_eq!(source.asset_lookup(&db_asset, &s("doge")), (0, false));
}

#[test]
fn registrations_chain() {
    let mut sources = Sources::new();
    sources.register(Paxos::get_source(), "paxos").register(Kraken::get_source(), "kraken");
    assert_eq!(sources.load("paxos").unwrap().code, "itbi");
    assert_eq!(sources.load("kraken").unwrap().code, "krkn");
}

#[test]
fn a_run_without_new_rows_ends_after_fetch() {
    assert_eq!(after_fetch(&vec![]), AfterFetch::Finish);
    let rows = vec![(DBInstrument::default(), s("btcusd"))];
    assert_eq!(after_fetch(&rows), AfterFetch::InsertAndReport);
}
