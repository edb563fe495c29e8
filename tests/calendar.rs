use trade_calendar::calendar::timestamp_of;
use trade_calendar::registry::format_status;
use trade_calendar::{
    CalendarDate, Calender, LoadError, Market, NonTradeCal, RecordFault, TimeOfDay, TradeDay,
    TradeDayStatus, UtcDateTime, HKMarket, SGMarket, USMarket,
};

const SAMPLE: &str = "market,timezone,date,status
HK,Asia/Hong_Kong,2024-01-02,Close
SG,Asia/Singapore,2024-01-03,Half(17:00:01)
";

fn at(y: i32, mo: u32, d: u32, h: u32, mi: u32, s: u32) -> UtcDateTime {
    UtcDateTime::new(y, mo, d, h, mi, s).unwrap()
}

fn date(y: i32, m: u32, d: u32) -> CalendarDate {
    CalendarDate::new(y, m, d).unwrap()
}

fn fault_of(data: &str) -> (usize, RecordFault) {
    match NonTradeCal::new(data) {
        Err(LoadError::MalformedRecord { row, fault, .. }) => (row, fault),
        Err(LoadError::Unreadable) => panic!("unreadable"),
        Err(LoadError::MissingColumn) => panic!("missing column"),
        Ok(_) => panic!("loaded"),
    }
}

#[test]
fn lib_test_cal() {
    let cal = Calender::new("market,timezone,date,status\n");
    assert!(cal.is_ok());
}

#[test]
fn test_csv() {
    let csv_data = r#"market,timezone,date,status
hk,UTC+8,2024-01-02,Close
sg,UTC+8,2024-01-03,Half(17:00:01)
"#;
    let cal = NonTradeCal::new(csv_data).expect("Failed to deserialize");
    assert_eq!(
        cal.lookup(Market::HK(HKMarket), date(2024, 1, 2)),
        Some(TradeDayStatus::Close)
    );
    assert_eq!(
        cal.lookup(Market::SG(SGMarket), date(2024, 1, 3)),
        Some(TradeDayStatus::Half(TimeOfDay { hour: 17, minute: 0, second: 1 }))
    );
    assert_eq!(cal.lookup(Market::SG(SGMarket), date(2024, 1, 2)), None);
}

#[test]
fn concrete_registry_scenario() {
    let cal = Calender::new(SAMPLE).unwrap();
    let hk = Market::HK(HKMarket);
    let sg = Market::SG(SGMarket);
    assert_eq!(cal.is_trade_day(hk, Some(at(2024, 1, 2, 4, 0, 0))), Some(false));
    assert_eq!(cal.classify(hk, Some(at(2024, 1, 2, 4, 0, 0))), Some(TradeDay::Closed));
    let half = TradeDay::HalfDay(TimeOfDay { hour: 17, minute: 0, second: 1 });
    assert_eq!(cal.classify(sg, Some(at(2024, 1, 3, 6, 0, 0))), Some(half));
    assert_eq!(cal.is_trade_day(sg, Some(at(2024, 1, 3, 6, 0, 0))), Some(true));
}

#[test]
fn same_instant_different_local_dates() {
    let cal = Calender::new(SAMPLE).unwrap();
    let instant = at(2024, 1, 1, 23, 30, 0);
    // Hong Kong: 2024-01-02 local, a Tuesday with a closure record.
    assert_eq!(cal.classify(Market::HK(HKMarket), Some(instant)), Some(TradeDay::Closed));
    // New York: still 2024-01-01 local, a Monday without a record.
    assert_eq!(
        cal.classify(Market::US(USMarket), Some(instant)),
        Some(TradeDay::FullTradingDay)
    );
    assert_eq!(cal.is_trade_day(Market::US(USMarket), Some(instant)), Some(true));
}

#[test]
fn local_date_follows_market_zone() {
    let cal = Calender::new("market,timezone,date,status\nUS,America/New_York,2024-01-01,Close\n")
        .unwrap();
    // 2024-01-02T03:00Z is still 2024-01-01 in New York.
    assert_eq!(
        cal.classify(Market::US(USMarket), Some(at(2024, 1, 2, 3, 0, 0))),
        Some(TradeDay::Closed)
    );
    assert_eq!(
        cal.classify(Market::US(USMarket), Some(at(2024, 1, 2, 6, 0, 0))),
        Some(TradeDay::FullTradingDay)
    );
}

#[test]
fn weekend_overrides_half_day_record() {
    let cal = Calender::new("market,timezone,date,status\nHK,Asia/Hong_Kong,2024-01-06,Half(12:00:00)\n")
        .unwrap();
    let hk = Market::HK(HKMarket);
    assert_eq!(cal.classify_date(hk, date(2024, 1, 6)), TradeDay::Closed);
    assert_eq!(cal.classify(hk, Some(at(2024, 1, 6, 4, 0, 0))), Some(TradeDay::Closed));
    assert_eq!(cal.is_trade_day(hk, Some(at(2024, 1, 7, 4, 0, 0))), Some(false));
}

#[test]
fn unrecorded_weekday_is_full_day() {
    let cal = Calender::new(SAMPLE).unwrap();
    assert_eq!(cal.classify_date(Market::CN(trade_calendar::CNMarket), date(2024, 1, 2)), TradeDay::FullTradingDay);
    assert_eq!(cal.classify_date(Market::SG(SGMarket), date(2024, 1, 2)), TradeDay::FullTradingDay);
}

#[test]
fn empty_dataset_is_weekend_rule() {
    let cal = Calender::new("market,timezone,date,status\n").unwrap();
    for m in [Market::US(USMarket), Market::HK(HKMarket), Market::SG(SGMarket)] {
        assert_eq!(cal.classify_date(m, date(2024, 1, 2)), TradeDay::FullTradingDay);
        assert_eq!(cal.classify_date(m, date(2024, 1, 5)), TradeDay::FullTradingDay);
        assert_eq!(cal.classify_date(m, date(2024, 1, 6)), TradeDay::Closed);
        assert_eq!(cal.classify_date(m, date(2024, 1, 7)), TradeDay::Closed);
    }
}

#[test]
fn classify_now_answers() {
    let cal = Calender::new(SAMPLE).unwrap();
    assert!(cal.classify(Market::US(USMarket), None).is_some());
    assert!(cal.is_trade_day(Market::HK(HKMarket), None).is_some());
}

#[test]
fn malformed_half_time_fails_load() {
    assert_eq!(
        fault_of("market,timezone,date,status\nHK,Asia/Hong_Kong,2024-01-02,Half(25:99:00)\n"),
        (0, RecordFault::BadStatus)
    );
}

#[test]
fn unknown_status_token_fails_load() {
    assert_eq!(
        fault_of("market,timezone,date,status\nHK,Asia/Hong_Kong,2024-01-02,Close\nSG,Asia/Singapore,2024-01-03,Open\n"),
        (1, RecordFault::BadStatus)
    );
    assert!(Calender::new("market,timezone,date,status\nHK,x,2024-01-02,closed\n").is_err());
}

#[test]
fn malformed_row_reports_fields() {
    match NonTradeCal::new("market,timezone,date,status\nJP,Asia/Tokyo,2024-01-02,Close\n") {
        Err(LoadError::MalformedRecord { row, raw, fault }) => {
            assert_eq!(row, 0);
            assert_eq!(fault, RecordFault::UnknownMarket);
            assert_eq!(raw, vec!["JP", "Asia/Tokyo", "2024-01-02", "Close"]);
        }
        _ => panic!("expected a malformed record"),
    }
}

#[test]
fn bad_dates_fail_load() {
    assert_eq!(fault_of("market,timezone,date,status\nHK,x,2023-02-29,Close\n"), (0, RecordFault::BadDate));
    assert_eq!(fault_of("market,timezone,date,status\nHK,x,2024-13-01,Close\n"), (0, RecordFault::BadDate));
    assert_eq!(fault_of("market,timezone,date,status\nHK,x,2024/01/02,Close\n"), (0, RecordFault::BadDate));
    assert!(NonTradeCal::new("market,timezone,date,status\nHK,x,2024-02-29,Close\n").is_ok());
}

#[test]
fn field_count_and_unreadable() {
    assert!(matches!(
        NonTradeCal::new("market,timezone,date\nHK,x,2024-01-02\n"),
        Err(LoadError::MissingColumn)
    ));
    assert!(matches!(
        NonTradeCal::new("market,timezone,date,status\nHK,x,2024-01-02,Close,extra\n"),
        Err(LoadError::Unreadable)
    ));
}

#[test]
fn duplicate_key_last_record_wins() {
    let cal = NonTradeCal::new("market,timezone,date,status\nHK,x,2024-01-02,Close\nhk,y,2024-01-02,Half(12:30:00)\n")
        .unwrap();
    assert_eq!(
        cal.lookup(Market::HK(HKMarket), date(2024, 1, 2)),
        Some(TradeDayStatus::Half(TimeOfDay { hour: 12, minute: 30, second: 0 }))
    );
}

#[test]
fn weekdays_of_known_dates() {
    assert_eq!(date(2024, 1, 1).weekday(), 1);
    assert_eq!(date(2024, 1, 6).weekday(), 6);
    assert_eq!(date(2024, 1, 7).weekday(), 0);
    assert_eq!(date(2000, 2, 29).weekday(), 2);
    assert_eq!(date(1970, 1, 1).weekday(), 4);
    assert!(date(2024, 1, 6).is_weekend());
    assert!(!date(2024, 1, 5).is_weekend());
}

#[test]
fn utc_date_time_bounds() {
    assert!(UtcDateTime::new(2024, 2, 30, 0, 0, 0).is_none());
    assert!(UtcDateTime::new(2024, 1, 1, 24, 0, 0).is_none());
    assert!(UtcDateTime::new(-262143, 1, 1, 0, 0, 0).is_none());
    assert!(UtcDateTime::new(262142, 1, 1, 0, 0, 0).is_none());
    assert!(UtcDateTime::new(0, 1, 1, 0, 0, 0).is_some());
    assert!(UtcDateTime::new(262141, 12, 31, 23, 59, 59).is_some());
    assert!(UtcDateTime::new(-262142, 1, 1, 0, 0, 0).is_some());
}

#[test]
fn columns_found_by_header_name() {
    let cal = NonTradeCal::new("status,date,market,timezone\nHalf(13:00:00),2024-01-03,sg,Asia/Singapore\n")
        .unwrap();
    assert_eq!(
        cal.lookup(Market::SG(SGMarket), date(2024, 1, 3)),
        Some(TradeDayStatus::Half(TimeOfDay { hour: 13, minute: 0, second: 0 }))
    );
    match NonTradeCal::new("status,date,market,timezone\nOpen,2024-01-03,sg,x\n") {
        Err(LoadError::MalformedRecord { row, raw, fault }) => {
            assert_eq!((row, fault), (0, RecordFault::BadStatus));
            assert_eq!(raw, vec!["sg", "x", "2024-01-03", "Open"]);
        }
        _ => panic!("expected a malformed record"),
    }
}

#[test]
fn empty_text_loads_empty_registry() {
    let cal = Calender::new("").unwrap();
    assert_eq!(cal.classify_date(Market::HK(HKMarket), date(2024, 1, 2)), TradeDay::FullTradingDay);
}

#[test]
fn classify_at_clock_readings() {
    let cal = Calender::new(SAMPLE).unwrap();
    let hk = Market::HK(HKMarket);
    let reading = UtcDateTime {
        date: CalendarDate { year: 2024, month: 1, day: 2 },
        time: TimeOfDay { hour: 4, minute: 0, second: 0 },
    };
    assert_eq!(cal.classify_at(hk, reading), Some(TradeDay::Closed));
    let far = UtcDateTime {
        date: CalendarDate { year: 262142, month: 12, day: 31 },
        time: TimeOfDay { hour: 23, minute: 0, second: 0 },
    };
    assert_eq!(cal.classify_at(hk, far), None);
    let early = at(1969, 12, 31, 23, 0, 0);
    assert_eq!(cal.classify(Market::US(USMarket), Some(early)), Some(TradeDay::FullTradingDay));
}

#[test]
fn timestamps_of_clock_readings() {
    assert_eq!(timestamp_of(Ok((1_700_000_000, 5))), Some(1_700_000_000));
    assert_eq!(timestamp_of(Err((10, 0))), Some(-10));
    assert_eq!(timestamp_of(Err((10, 1))), Some(-11));
    assert_eq!(timestamp_of(Ok((u64::MAX, 0))), None);
}

#[test]
fn status_text_round_trip() {
    assert_eq!(format_status(TradeDayStatus::Close), "Close");
    let half = TradeDayStatus::Half(TimeOfDay { hour: 17, minute: 0, second: 1 });
    assert_eq!(format_status(half), "Half(17:00:01)");
    let early = TradeDayStatus::Half(TimeOfDay { hour: 9, minute: 5, second: 59 });
    let text = format_status(early);
    assert_eq!(text, "Half(09:05:59)");
    let data = format!("market,timezone,date,status\nHK,x,2024-01-02,{}\n", text);
    let cal = NonTradeCal::new(&data).unwrap();
    assert_eq!(cal.lookup(Market::HK(HKMarket), date(2024, 1, 2)), Some(early));
}

#[test]
fn dataset_market_long_s() {
    let cal = NonTradeCal::new("market,timezone,date,status\nuſ,America/New_York,2024-01-02,Close\n")
        .unwrap();
    assert_eq!(cal.lookup(Market::US(USMarket), date(2024, 1, 2)), Some(TradeDayStatus::Close));
}
