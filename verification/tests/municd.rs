use exif_geocode::municd::{
    entry_of, is_available, key_of_code, parse_source, parse_with, CacheError, CacheProbe,
    LoadEvent, LoadState, MuniCdMap, MuniCdRecord, EXPIRE_DAYS, RECORD_RE,
};

fn record(code: usize, pref: &str, town: &str) -> MuniCdRecord {
    MuniCdRecord::new(code, pref.to_string(), town.to_string())
}

fn line(index: usize, pref: &str, code: &str, town: &str) -> String {
    format!("GSI.MUNI_ARRAY[\"{}\"] = '{},{},{},{}';", code, index, pref, code, town)
}

fn sorted_entries(table: &MuniCdMap) -> Vec<(String, MuniCdRecord)> {
    let mut entries = table.entries();
    entries.sort_by(|a, b| a.0.cmp(&b.0));
    entries
}

#[test]
fn source_line_yields_record_under_padded_key() {
    let table = parse_source("GSI.MUNI_ARRAY[\"1\"] = '1,Tokyo,13101,Chiyoda City'").unwrap();
    assert_eq!(table.len(), 1);
    let found = table.get("013101").unwrap();
    assert_eq!(*found, record(13101, "Tokyo", "Chiyoda City"));
    assert_eq!(found.code(), 13101);
    assert_eq!(found.pref_name(), "Tokyo");
    assert_eq!(found.town_name(), "Chiyoda City");
    assert!(table.get("13101").is_none());
}

#[test]
fn record_accessors_and_display_name() {
    let r = record(1101, "北海道", "札幌市\u{3000}中央区");
    assert_eq!(r.code(), 1101);
    assert_eq!(r.pref_name(), "北海道");
    assert_eq!(r.town_name(), "札幌市\u{3000}中央区");
    assert_eq!(r.to_string(), "北海道札幌市中央区");
    assert_eq!(r.clone(), r);
}

#[test]
fn display_name_keeps_ordinary_blanks() {
    assert_eq!(record(13101, "Tokyo", "Chiyoda City").to_string(), "TokyoChiyoda City");
    assert_eq!(record(1, "", "\u{3000}\u{3000}").to_string(), "");
}

#[test]
fn key_is_six_digits_with_leading_zeros() {
    assert_eq!(key_of_code(13101), "013101");
    assert_eq!(key_of_code(1101), "001101");
    assert_eq!(key_of_code(0), "000000");
    assert_eq!(key_of_code(472018), "472018");
    assert_eq!(key_of_code(1234567), "1234567");
    assert_eq!(key_of_code(13101), format!("{:06}", 13101));
}

#[test]
fn source_with_script_lines_around_records() {
    let text = [
        "var GSI = GSI || {};".to_string(),
        "GSI.MUNI_ARRAY = {};".to_string(),
        line(1, "北海道", "1100", "札幌市"),
        line(1, "北海道", "1101", "札幌市\u{3000}中央区"),
        "".to_string(),
        "// GSI.MUNI_ARRAY[\"x\"] = 'x';".to_string(),
        line(13, "東京都", "13101", "千代田区"),
        line(47, "沖縄県", "47382", "与那国町"),
    ]
    .join("\n");
    let table = parse_source(&text).unwrap();
    assert_eq!(table.len(), 4);
    assert_eq!(*table.get("001100").unwrap(), record(1100, "北海道", "札幌市"));
    assert_eq!(*table.get("001101").unwrap(), record(1101, "北海道", "札幌市\u{3000}中央区"));
    assert_eq!(*table.get("013101").unwrap(), record(13101, "東京都", "千代田区"));
    assert_eq!(*table.get("047382").unwrap(), record(47382, "沖縄県", "与那国町"));
}

#[test]
fn lines_that_do_not_match_add_nothing() {
    let records = [line(13, "Tokyo", "13101", "Chiyoda"), line(13, "Tokyo", "13102", "Chuo")];
    let plain = records.join("\n");
    let noise = [
        "",
        "function f() { return 1; }",
        "GSI.MUNI_ARRAY[\"13103\"] = '13,Tokyo,Minato'",
        "GSI.MUNI_ARRAY[13103] = '13,Tokyo,13103,Minato'",
        "GSI_MUNI_ARRAY[\"13103\"] = '13,Tokyo,13103,Minato'",
        "13,Tokyo,13103,Minato",
    ];
    let expected = sorted_entries(&parse_source(&plain).unwrap());
    assert_eq!(expected.len(), 2);
    for extra in noise {
        for at in 0..=2 {
            let mut all: Vec<&str> = records.iter().map(|l| l.as_str()).collect();
            all.insert(at, extra);
            let table = parse_source(&all.join("\n")).unwrap();
            assert_eq!(sorted_entries(&table), expected, "{:?} at {}", extra, at);
        }
    }
}

#[test]
fn source_without_records_is_an_empty_table() {
    assert_eq!(parse_source("").unwrap().len(), 0);
    assert_eq!(parse_source("nothing\nto see\n").unwrap().len(), 0);
    assert!(parse_source("\n\n").unwrap().entries().is_empty());
}

#[test]
fn later_record_replaces_earlier_under_same_key() {
    let text = [
        line(13, "Tokyo", "13101", "Old"),
        line(13, "Tokyo", "13102", "Chuo"),
        line(13, "Tokyo", "013101", "New"),
    ]
    .join("\n");
    let table = parse_source(&text).unwrap();
    assert_eq!(table.len(), 2);
    assert_eq!(*table.get("013101").unwrap(), record(13101, "Tokyo", "New"));
    let keys: Vec<String> = table.entries().into_iter().map(|e| e.0).collect();
    assert_eq!(keys, vec!["013101", "013102"]);
}

#[test]
fn source_with_carriage_returns() {
    let text = format!(
        "{}\r\n{}\r\n",
        line(13, "Tokyo", "13101", "Chiyoda"),
        line(13, "Tokyo", "13102", "Chuo")
    );
    let table = parse_source(&text).unwrap();
    assert_eq!(table.len(), 2);
    assert_eq!(table.get("013102").unwrap().town_name(), "Chuo");
}

#[test]
fn groups_are_taken_greedily() {
    let table = parse_source("GSI.MUNI_ARRAY[\"1\"] = '1,A,B,2,13101,C,D'").unwrap();
    assert_eq!(*table.get("013101").unwrap(), record(13101, "A,B,2", "C,D"));
}

#[test]
fn code_that_does_not_fit_is_malformed_source() {
    let text = [
        line(13, "Tokyo", "13101", "Chiyoda"),
        line(13, "Tokyo", "99999999999999999999999999999999999", "Nowhere"),
        line(13, "Tokyo", "13102", "Chuo"),
    ]
    .join("\n");
    assert_eq!(parse_source(&text).err(), Some(CacheError::MalformedSource));
}

#[test]
fn code_in_other_digits_is_malformed_source() {
    let text = line(13, "Tokyo", "１３１０１", "Chiyoda");
    assert_eq!(parse_source(&text).err(), Some(CacheError::MalformedSource));
}

#[test]
fn pattern_that_does_not_compile_is_an_error() {
    assert_eq!(parse_with("(unclosed", "any text").err(), Some(CacheError::Pattern));
    assert_eq!(parse_with("(unclosed", "").err(), Some(CacheError::Pattern));
    assert!(parse_with(RECORD_RE, "").is_ok());
}

#[test]
fn parse_with_other_pattern() {
    let table = parse_with("^(\\w+) (\\d+) (\\w+)$", "Tokyo 13101 Chiyoda\nskip me\n").unwrap();
    assert_eq!(table.len(), 1);
    assert_eq!(*table.get("013101").unwrap(), record(13101, "Tokyo", "Chiyoda"));
}

#[test]
fn pattern_with_other_groups_gives_no_record() {
    assert_eq!(parse_with("(\\d+)", "13101").err(), Some(CacheError::MalformedSource));
    assert_eq!(
        parse_with("(a)|(\\d+),(\\d+),(\\d+)", "1,2,3").err(),
        Some(CacheError::MalformedSource)
    );
    assert_eq!(parse_with("(a)(\\d+)?(b)", "ab").err(), Some(CacheError::MalformedSource));
}

#[test]
fn entry_of_groups_of_a_match() {
    let groups = vec![
        Some("whole".to_string()),
        Some("Tokyo".to_string()),
        Some("13101".to_string()),
        Some("Chiyoda".to_string()),
    ];
    assert_eq!(entry_of(&groups), Ok(("013101".to_string(), record(13101, "Tokyo", "Chiyoda"))));
}

#[test]
fn entry_of_needs_three_groups_and_a_code() {
    let s = |t: &str| Some(t.to_string());
    assert_eq!(entry_of(&vec![]), Err(CacheError::MalformedSource));
    assert_eq!(entry_of(&vec![s("w"), s("a"), s("1")]), Err(CacheError::MalformedSource));
    assert_eq!(
        entry_of(&vec![s("w"), s("a"), s("1"), s("b"), s("c")]),
        Err(CacheError::MalformedSource)
    );
    assert_eq!(entry_of(&vec![s("w"), None, s("1"), s("b")]), Err(CacheError::MalformedSource));
    assert_eq!(entry_of(&vec![s("w"), s("a"), None, s("b")]), Err(CacheError::MalformedSource));
    assert_eq!(entry_of(&vec![s("w"), s("a"), s("1"), None]), Err(CacheError::MalformedSource));
    assert_eq!(entry_of(&vec![s("w"), s("a"), s("x"), s("b")]), Err(CacheError::MalformedSource));
    assert_eq!(entry_of(&vec![None, s("a"), s("1"), s("b")]), Ok(("000001".to_string(), record(1, "a", "b"))));
}

#[test]
fn table_insert_get_and_entries() {
    let mut table = MuniCdMap::new();
    assert_eq!(table.len(), 0);
    assert!(table.entries().is_empty());
    assert!(table.get("013101").is_none());
    table.insert("013101".to_string(), record(13101, "Tokyo", "Chiyoda"));
    table.insert("001100".to_string(), record(1100, "Hokkaido", "Sapporo"));
    table.insert("013101".to_string(), record(13101, "Tokyo", "Chiyoda City"));
    assert_eq!(table.len(), 2);
    assert_eq!(table.get("013101").unwrap().town_name(), "Chiyoda City");
    assert_eq!(table.get("001100").unwrap().pref_name(), "Hokkaido");
    assert!(table.get("1100").is_none());
    assert_eq!(
        table.entries(),
        vec![
            ("013101".to_string(), record(13101, "Tokyo", "Chiyoda City")),
            ("001100".to_string(), record(1100, "Hokkaido", "Sapporo")),
        ]
    );
}

#[test]
fn table_rebuilt_from_its_entries_is_the_same() {
    let text = [
        line(1, "北海道", "1100", "札幌市"),
        line(13, "東京都", "13101", "千代田区"),
        line(47, "沖縄県", "47382", "与那国町"),
    ]
    .join("\n");
    let table = parse_source(&text).unwrap();
    let mut copy = MuniCdMap::new();
    for (key, value) in table.entries() {
        copy.insert(key, value);
    }
    assert_eq!(copy.entries(), table.entries());
    assert_eq!(copy.len(), 3);
}

#[test]
fn cache_is_available_below_ten_days() {
    assert_eq!(EXPIRE_DAYS, 10);
    assert!(is_available(&CacheProbe::Age(0)));
    assert!(is_available(&CacheProbe::Age(86_400)));
    assert!(is_available(&CacheProbe::Age(863_999)));
    assert!(!is_available(&CacheProbe::Age(864_000)));
    assert!(!is_available(&CacheProbe::Age(864_001)));
    assert!(!is_available(&CacheProbe::Age(u64::MAX)));
}

#[test]
fn cache_of_unknown_age_is_not_available() {
    assert!(!is_available(&CacheProbe::Missing));
    assert!(!is_available(&CacheProbe::MetadataUnreadable));
    assert!(!is_available(&CacheProbe::ModifiedTimeUnreadable));
    assert!(!is_available(&CacheProbe::ModifiedInFuture));
}

fn sample_table() -> MuniCdMap {
    let mut table = MuniCdMap::new();
    table.insert("013101".to_string(), record(13101, "Tokyo", "Chiyoda City"));
    table
}

#[test]
fn fresh_cache_is_served_without_fetching() {
    let state = LoadState::start();
    assert!(matches!(state, LoadState::Probing));
    let state = state.step(LoadEvent::Probed(CacheProbe::Age(3600)));
    assert!(matches!(state, LoadState::ReadingCache));
    let state = state.step(LoadEvent::CacheRead(Some(sample_table())));
    match state {
        LoadState::Loaded(table) => assert_eq!(table.entries(), sample_table().entries()),
        _ => panic!("not loaded"),
    }
}

#[test]
fn stale_or_missing_cache_is_refreshed() {
    for probe in [
        CacheProbe::Age(864_000),
        CacheProbe::Missing,
        CacheProbe::MetadataUnreadable,
        CacheProbe::ModifiedTimeUnreadable,
        CacheProbe::ModifiedInFuture,
    ] {
        let state = LoadState::start().step(LoadEvent::Probed(probe));
        assert!(matches!(state, LoadState::Fetching), "{:?}", probe);
    }
}

#[test]
fn cache_that_does_not_decode_is_refreshed() {
    let state = LoadState::start()
        .step(LoadEvent::Probed(CacheProbe::Age(0)))
        .step(LoadEvent::CacheRead(None));
    assert!(matches!(state, LoadState::Fetching));
}

#[test]
fn refresh_parses_persists_and_serves() {
    let text = line(13, "Tokyo", "13101", "Chiyoda City") + "\nnoise\n";
    let state = LoadState::start()
        .step(LoadEvent::Probed(CacheProbe::Missing))
        .step(LoadEvent::Fetched(Some(text)));
    let state = match state {
        LoadState::Persisting(table) => {
            assert_eq!(table.entries(), sample_table().entries());
            LoadState::Persisting(table)
        }
        _ => panic!("not persisting"),
    };
    match state.step(LoadEvent::Persisted(true)) {
        LoadState::Loaded(table) => assert_eq!(table.entries(), sample_table().entries()),
        _ => panic!("not loaded"),
    }
}

#[test]
fn refresh_failures_end_loading() {
    let fetching = || LoadState::start().step(LoadEvent::Probed(CacheProbe::Missing));
    assert!(matches!(
        fetching().step(LoadEvent::Fetched(None)),
        LoadState::Failed(CacheError::Fetch)
    ));
    let bad = line(13, "Tokyo", "99999999999999999999999999999999999", "Nowhere");
    assert!(matches!(
        fetching().step(LoadEvent::Fetched(Some(bad))),
        LoadState::Failed(CacheError::MalformedSource)
    ));
    let good = line(13, "Tokyo", "13101", "Chiyoda City");
    assert!(matches!(
        fetching().step(LoadEvent::Fetched(Some(good))).step(LoadEvent::Persisted(false)),
        LoadState::Failed(CacheError::Persist)
    ));
}

#[test]
fn events_not_asked_for_change_nothing() {
    let state = LoadState::start().step(LoadEvent::Fetched(Some("x".to_string())));
    assert!(matches!(state, LoadState::Probing));
    let state = state.step(LoadEvent::Persisted(true));
    assert!(matches!(state, LoadState::Probing));
    let state = state.step(LoadEvent::CacheRead(Some(sample_table())));
    assert!(matches!(state, LoadState::Probing));
    let state = state.step(LoadEvent::Probed(CacheProbe::Age(1)));
    let state = state.step(LoadEvent::Probed(CacheProbe::Missing));
    assert!(matches!(state, LoadState::ReadingCache));
    let state = state.step(LoadEvent::CacheRead(Some(sample_table())));
    let state = state.step(LoadEvent::Fetched(None));
    let state = state.step(LoadEvent::Persisted(false));
    assert!(matches!(state, LoadState::Loaded(_)));
    let failed = LoadState::Failed(CacheError::Fetch).step(LoadEvent::Probed(CacheProbe::Age(1)));
    assert!(matches!(failed, LoadState::Failed(CacheError::Fetch)));
}
