use foxsur::collections::StringMap;
use foxsur::database::instrument::DBInstrument;
use foxsur::error::FoxsurError;
use foxsur::instruments::deribit::{DeribitHandler, DeribitInstrument};
use foxsur::instruments::kraken::{KrakenHandler, KrakenInstrument};
use foxsur::instruments::paxos::{PaxosHandler, PaxosInstrument};
use foxsur::instruments::{GetInstrument, Instrument, NoExchangeHandler};

fn s(t: &str) -> String {
    t.to_string()
}

fn inst(symbol: &str, base: &str, quote: &str) -> Instrument {
    Instrument { symbol: s(symbol), base: s(base), quote: s(quote), class: None, raw_symbol: None }
}

fn db_map(keys: &[&str]) -> StringMap<DBInstrument> {
    let mut m = StringMap::new();
    for k in keys {
        m.insert(s(k), DBInstrument::default());
    }
    m
}

#[test]
fn instrument_exists_in_the_database() {
    let db = db_map(&["BTCUSD"]);
    let mapping: StringMap<String> = StringMap::new();
    assert!(inst("BTCUSD", "btc", "usd").exist(&db, &mapping, &None));
    assert!(!inst("ETHUSD", "eth", "usd").exist(&db, &mapping, &None));
}

#[test]
fn instrument_exists_in_the_mapping() {
    let db = db_map(&[]);
    let mut mapping: StringMap<String> = StringMap::new();
    mapping.insert(s("BTCEUR"), s("XBTEUR"));
    assert!(inst("BTCEUR", "btc", "eur").exist(&db, &mapping, &None));
    assert!(!inst("XBTEUR", "xbt", "eur").exist(&db, &mapping, &None));
}

#[test]
fn instrument_exists_under_the_prefix() {
    let db = db_map(&["pre-BTCUSD"]);
    let mapping: StringMap<String> = StringMap::new();
    assert!(inst("BTCUSD", "btc", "usd").exist(&db, &mapping, &Some(s("pre-"))));
    assert!(!inst("BTCUSD", "btc", "usd").exist(&db, &mapping, &None));
    assert!(!inst("BTCUSD", "btc", "usd").exist(&db, &mapping, &Some(s("other-"))));
}

#[test]
fn asset_identifier_only_when_auto_mapped() {
    let mut fa: StringMap<i32> = StringMap::new();
    fa.insert(s("btc"), 7);
    let i = inst("BTCUSD", "btc", "usd");
    assert_eq!(i.has_same_fa(&fa, true, "btc"), Some(7));
    assert_eq!(i.has_same_fa(&fa, false, "btc"), None);
    assert_eq!(i.has_same_fa(&fa, true, "usd"), None);
}

#[test]
fn deribit_perpetuals_are_perpetual_futures() {
    let d = |kind: &str| DeribitInstrument {
        instrument_name: s("BTC-PERPETUAL"),
        base_currency: s("BTC"),
        counter_currency: s("USD"),
        kind: s(kind),
    };
    assert_eq!(d("BTC-PERPETUAL").get_instrument_class(), "perpetual-future");
    assert_eq!(d("PERPETUAL").get_instrument_class(), "perpetual-future");
    assert_eq!(d("future").get_instrument_class(), "future");
    assert_eq!(d("spot").get_instrument_class(), "spot");
}

#[test]
fn deribit_listing_becomes_instruments_and_assets() {
    let listed = vec![
        DeribitInstrument { instrument_name: s("BTC-PERPETUAL"), base_currency: s("BTC"), counter_currency: s("USD"), kind: s("future-PERPETUAL") },
        DeribitInstrument { instrument_name: s("ETH_USDC"), base_currency: s("ETH"), counter_currency: s("USDC"), kind: s("spot") },
    ];
    let (insts, set) = DeribitHandler::get_instrument(listed).unwrap();
    assert_eq!(insts.len(), 2);
    assert_eq!(insts[0].symbol, "BTC-PERPETUAL");
    assert_eq!(insts[0].class, Some(s("perpetual-future")));
    assert_eq!(insts[1].base, "ETH");
    assert_eq!(insts[1].quote, "USDC");
    assert_eq!(insts[1].class, Some(s("spot")));
    assert_eq!(set.len(), 4);
    for a in ["BTC", "USD", "ETH", "USDC"] {
        assert!(set.contains(&s(a)));
    }
}

#[test]
fn kraken_pairs_are_split_on_the_slash() {
    let pairs = vec![
        KrakenInstrument { wsname: s("XBT/EUR"), altname: s("XBTEUR") },
        KrakenInstrument { wsname: s("ETH/XBT"), altname: s("ETHXBT") },
        KrakenInstrument { wsname: s("ODD"), altname: s("ODD") },
    ];
    let (insts, set) = KrakenHandler::get_instrument(Some(pairs)).unwrap();
    assert_eq!(insts.len(), 3);
    assert_eq!(insts[0].symbol, "XBTEUR");
    assert_eq!(insts[0].base, "XBT");
    assert_eq!(insts[0].quote, "EUR");
    assert_eq!(insts[0].raw_symbol, Some(s("XBT/EUR")));
    assert_eq!(insts[0].class, Some(s("spot")));
    assert_eq!(insts[2].base, "ODD");
    assert_eq!(insts[2].quote, "");
    assert_eq!(set.len(), 5);
    assert!(set.contains(&s("")));
}

#[test]
fn kraken_answer_without_result_is_refused() {
    assert!(matches!(KrakenHandler::get_instrument(None), Err(FoxsurError::NoResult)));
}

#[test]
fn kraken_pair_name_with_two_slashes() {
    assert_eq!(KrakenHandler::split_pair("A/B/C"), (s("A"), s("B")));
    assert_eq!(KrakenHandler::split_pair(""), (s(""), s("")));
}

#[test]
fn paxos_market_is_lowercased() {
    let mut m = PaxosInstrument { market: s("BTCUSD"), base_asset: s("BTC"), quote_asset: s("USD") };
    m.normalize();
    assert_eq!(m.market, "btcusd");
    assert_eq!(m.base_asset, "btc");
    assert_eq!(m.quote_asset, "usd");
}

#[test]
fn paxos_markets_become_lowercased_instruments() {
    let markets = vec![
        PaxosInstrument { market: s("BTCUSD"), base_asset: s("BTC"), quote_asset: s("USD") },
        PaxosInstrument { market: s("ETHUSD"), base_asset: s("ETH"), quote_asset: s("USD") },
    ];
    let (insts, set) = PaxosHandler::get_instrument(Some(markets)).unwrap();
    assert_eq!(insts.len(), 2);
    assert_eq!(insts[0].symbol, "btcusd");
    assert_eq!(insts[1].base, "eth");
    assert_eq!(insts[1].class, None);
    assert_eq!(set.len(), 3);
    assert!(set.contains(&s("usd")));
    assert!(!set.contains(&s("USD")));
}

#[test]
fn paxos_answer_without_markets_is_refused() {
    assert!(matches!(PaxosHandler::get_instrument(None), Err(FoxsurError::NoMarkets)));
    let (insts, set) = PaxosHandler::get_instrument(Some(vec![])).unwrap();
    assert!(insts.is_empty());
    assert_eq!(set.len(), 0);
}

#[test]
fn expect_to_load_kraken_instruments() {
    let answer = vec![
        KrakenInstrument { wsname: s("XBT/USD"), altname: s("XBTUSD") },
        KrakenInstrument { wsname: s("ETH/EUR"), altname: s("ETHEUR") },
    ];
    let res = KrakenHandler::get_instrument(Some(answer));

    assert!(res.is_ok());
}

#[test]
fn no_exchange_lists_nothing() {
    let (insts, set) = NoExchangeHandler::get_instrument(()).unwrap();
    assert!(insts.is_empty());
    assert_eq!(set.len(), 0);
}
