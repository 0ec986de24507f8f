use foxsur::collections::{StringMap, StringSet};

fn s(t: &str) -> String {
    t.to_string()
}

#[test]
fn map_get_after_insert_gives_the_value() {
    let mut m: StringMap<i32> = StringMap::new();
    m.insert(s("btc"), 1);
    m.insert(s("eth"), 2);
    assert_eq!(m.get(&s("btc")), Some(&1));
    assert_eq!(m.get(&s("eth")), Some(&2));
    assert_eq!(m.get(&s("sol")), None);
    assert!(m.contains_key(&s("eth")));
    assert!(!m.contains_key(&s("ETH")));
}

#[test]
fn map_insert_replaces_the_previous_value() {
    let mut m: StringMap<i32> = StringMap::new();
    m.insert(s("btc"), 1);
    m.insert(s("btc"), 5);
    assert_eq!(m.get(&s("btc")), Some(&5));
}

#[test]
fn set_counts_each_string_once() {
    let mut set = StringSet::new();
    assert!(set.insert(s("btc")));
    assert!(set.insert(s("usd")));
    assert!(!set.insert(s("btc")));
    assert_eq!(set.len(), 2);
    assert!(set.contains(&s("usd")));
    assert!(!set.contains(&s("eur")));
    let mut elems = set.elements().clone();
    elems.sort();
    assert_eq!(elems, vec![s("btc"), s("usd")]);
}

#[test]
fn empty_set_has_no_elements() {
    let set = StringSet::new();
    assert_eq!(set.len(), 0);
    assert!(set.elements().is_empty());
}
