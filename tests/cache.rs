use trackellite::cache::{satellite_key, station_entries, upsert_text, CacheMap};
use trackellite::decimal::Decimal;
use trackellite::records::{CalendarDate, ElementSet, GroundSite, MetaData, TLGroundStation, TLSatellite};

fn pairs(items: &[(&str, &str)]) -> Vec<(String, String)> {
    items.iter().map(|(k, v)| (k.to_string(), v.to_string())).collect()
}

#[test]
fn upsert_twice_writes_the_same_file() {
    let records = pairs(&[("ISS", "{\"a\":1}"), ("HOME", "x")]);
    let once = upsert_text(Some("{\"OLD\":\"kept\"}"), records.clone());
    let twice = upsert_text(Some(&once), records);
    assert_eq!(once, twice);
}

#[test]
fn upsert_overwrites_and_adds() {
    let file = upsert_text(Some("{\"a\":\"1\",\"b\":\"2\"}"), pairs(&[("b", "3"), ("c", "4")]));
    assert_eq!(file, "{\"a\":\"1\",\"b\":\"3\",\"c\":\"4\"}");
}

#[test]
fn later_pair_of_a_key_wins() {
    let file = upsert_text(None, pairs(&[("k", "1"), ("k", "2")]));
    assert_eq!(file, "{\"k\":\"2\"}");
}

#[test]
fn absent_or_corrupt_files_load_empty() {
    assert_eq!(CacheMap::load(None).to_json(), "{}");
    assert_eq!(CacheMap::load(Some("not json")).to_json(), "{}");
    assert_eq!(CacheMap::load(Some("[1,2]")).to_json(), "{}");
    assert!(CacheMap::load(Some("{\"a\":\"b\"}")).contains_key("a"));
}

#[test]
fn satellite_cache_round_trip_keeps_25544() {
    let sat = TLSatellite {
        satellite: ElementSet { norad_id: 25544, name: "ISS".to_string(), tle: "t".to_string() },
        metadata: MetaData {
            owner: "US".to_string(),
            launch_date: CalendarDate { year: 1998, month: 11, day: 20 },
            object_id: "1998-067A".to_string(),
            inclination: Decimal::parse("51.6").unwrap(),
        },
    };
    assert_eq!(satellite_key(&sat), "25544");
    let file = upsert_text(None, vec![(satellite_key(&sat), "record".to_string())]);
    let reloaded = CacheMap::load(Some(&file));
    assert!(reloaded.contains_key("25544"));
    assert_eq!(reloaded.values(), vec!["record".to_string()]);
}

#[test]
fn station_records_are_keyed_by_name() {
    let st = TLGroundStation {
        station: GroundSite {
            name: "Home".to_string(),
            lat: Decimal::zero(),
            long: Decimal::zero(),
            alt: Decimal::zero(),
        },
        active: true,
    };
    let entries = station_entries(&vec![st], vec!["enc".to_string()]);
    assert_eq!(entries, vec![("Home".to_string(), "enc".to_string())]);
}

#[test]
fn in_memory_upsert() {
    let mut m = CacheMap::new();
    m.upsert("a".to_string(), "1".to_string());
    m.upsert("a".to_string(), "2".to_string());
    m.upsert("b".to_string(), "3".to_string());
    assert_eq!(m.values(), vec!["2".to_string(), "3".to_string()]);
    assert!(!m.contains_key("c"));
}
