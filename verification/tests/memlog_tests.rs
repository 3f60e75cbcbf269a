use heater_control::memlog::{format_milliseconds_to_hms, Level, LogStorage, Record};

#[test]
fn milliseconds_format_as_padded_hours_minutes_seconds() {
    assert_eq!(format_milliseconds_to_hms(0), "00000:00:00.000");
    assert_eq!(format_milliseconds_to_hms(999), "00000:00:00.999");
    assert_eq!(format_milliseconds_to_hms(1_000), "00000:00:01.000");
    assert_eq!(format_milliseconds_to_hms(3_723_456), "00001:02:03.456");
    assert_eq!(format_milliseconds_to_hms(86_399_999), "00023:59:59.999");
}

#[test]
fn hour_field_grows_past_its_padding() {
    let hundred_thousand_hours: u64 = 100_000 * 3_600_000;
    assert_eq!(
        format_milliseconds_to_hms(hundred_thousand_hours),
        "100000:00:00.000"
    );
}

#[test]
fn level_labels_are_four_letters() {
    assert_eq!(Level::Trace.label(), "TRCE");
    assert_eq!(Level::Debug.label(), "DEBG");
    assert_eq!(Level::Info.label(), "INFO");
    assert_eq!(Level::Warn.label(), "WARN");
    assert_eq!(Level::Error.label(), "ERRO");
}

#[test]
fn a_record_formats_as_one_log_line() {
    let record = Record {
        instant_ms: 3_723_456,
        level: Level::Info,
        text: String::from("heater control initialized"),
    };
    assert_eq!(
        record.format_line(),
        "[00001:02:03.456] INFO: heater control initialized"
    );
}

#[test]
fn records_are_stored_newest_first() {
    let mut log = LogStorage::with_capacity(100);
    log.add_record(1, Level::Info, String::from("first"));
    log.add_record(2, Level::Warn, String::from("second"));
    let records = log.records();
    assert_eq!(records.len(), 2);
    assert_eq!(records[0].text, "second");
    assert_eq!(records[0].instant_ms, 2);
    assert_eq!(records[1].text, "first");
}

#[test]
fn a_full_store_evicts_the_oldest_records() {
    let mut log = LogStorage::with_capacity(40);
    log.add_record(1, Level::Info, String::from("aaaaaaaaaa"));
    log.add_record(2, Level::Info, String::from("bbbbbbbbbb"));
    log.add_record(3, Level::Info, String::from("cccccccccc"));
    log.add_record(4, Level::Info, String::from("dddddddddd"));
    assert_eq!(log.records().len(), 4);

    log.add_record(5, Level::Info, String::from("eeeee"));
    let texts: Vec<&str> = log.records().iter().map(|r| r.text.as_str()).collect();
    assert_eq!(texts, vec!["eeeee", "dddddddddd", "cccccccccc", "bbbbbbbbbb"]);
}

#[test]
fn an_oversized_record_leaves_a_warning_instead() {
    let mut log = LogStorage::with_capacity(40);
    log.add_record(1, Level::Info, String::from("kept"));
    let oversized = "x".repeat(41);
    log.add_record(2, Level::Error, oversized);

    let records = log.records();
    assert_eq!(records[0].text, "log discarded: too large for storage");
    assert!(matches!(records[0].level, Level::Warn));
    assert_eq!(records[0].instant_ms, 2);
    assert_eq!(records[1].text, "kept");
}

#[test]
fn clearing_empties_the_store() {
    let mut log = LogStorage::with_capacity(50);
    log.add_record(1, Level::Info, String::from("something"));
    log.clear();
    assert!(log.records().is_empty());
    log.add_record(2, Level::Info, String::from("after"));
    assert_eq!(log.records().len(), 1);
}
