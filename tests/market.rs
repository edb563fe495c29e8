use trade_calendar::{CNMarket, HKMarket, Market, SGMarket, USMarket};

#[test]
fn test_market() {
    let market_type = "us";
    if let Some(market) = Market::from_str(market_type) {
        println!("market is {}", market.time_zone());
        assert_eq!(market.time_zone(), "America/New_York");
    } else {
        panic!("us is a supported market");
    }
}

#[test]
fn parse_any_letter_case() {
    for code in ["US", "HK", "CN", "SG"] {
        for spelled in [code.to_string(), code.to_lowercase(), {
            let mut c = code.chars();
            let first = c.next().unwrap().to_ascii_lowercase();
            format!("{}{}", first, c.as_str())
        }] {
            let m = Market::parse(&spelled).unwrap();
            assert_eq!(m.market_type(), code);
        }
    }
}

#[test]
fn parse_rejects_unsupported() {
    for s in ["", "U", "USA", "JP", "u s", "ＵＳ"] {
        let e = Market::parse(s).unwrap_err();
        assert_eq!(e.code, s);
        assert!(Market::from_str(s).is_none());
    }
}

#[test]
fn accessors() {
    assert_eq!(Market::HK(HKMarket).time_zone(), "Asia/Hong_Kong");
    assert_eq!(Market::CN(CNMarket).time_zone(), "Asia/Shanghai");
    assert_eq!(Market::SG(SGMarket).time_zone(), "Asia/Singapore");
    assert_eq!(Market::SG(SGMarket).country_alpha2(), "SG");
    assert_eq!(Market::HK(HKMarket).country_code(), iso_country::Country::HK);
    assert_eq!(Market::US(USMarket).country_code(), iso_country::Country::US);
    assert_eq!(Market::CN(CNMarket).country_code(), iso_country::Country::CN);
}

#[test]
fn serialize_round_trip() {
    for m in [Market::US(USMarket), Market::HK(HKMarket), Market::CN(CNMarket), Market::SG(SGMarket)] {
        let s = m.serialize();
        assert_eq!(Market::deserialize(&s), Ok(m));
    }
    assert_eq!(Market::HK(HKMarket).serialize(), "HK");
    let e = Market::deserialize("hk").unwrap_err();
    assert_eq!(e.code, "hk");
    assert!(Market::deserialize("XX").is_err());
}

#[test]
fn parse_long_s_spellings() {
    for (s, code) in [("uſ", "US"), ("Uſ", "US"), ("ſg", "SG"), ("ſG", "SG")] {
        assert_eq!(s.to_uppercase(), code);
        assert_eq!(Market::parse(s).unwrap().market_type(), code);
        assert_eq!(Market::from_str(s).unwrap().market_type(), code);
    }
    assert!(Market::from_str("hſ").is_none());
    assert!(Market::deserialize("uſ").is_err());
}
