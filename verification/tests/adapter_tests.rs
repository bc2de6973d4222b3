use flowsurface::adapter::{
    bucket_start, group_into_intervals, is_live_env, parse_datetime_ms, is_supported_timeframe, normalize_symbol,
    oanda_request_plan, pair_name_of, take_lines, timeframe_to_granularity, timeframe_to_interval,
    trim, try_normalize_symbol, twelvedata_request_plan, AdapterError, CandleGroup, Timeframe,
};

#[test]
fn oanda_granularities() {
    assert_eq!(timeframe_to_granularity(Timeframe::M1).unwrap(), "M1");
    assert_eq!(timeframe_to_granularity(Timeframe::H12).unwrap(), "H12");
    assert_eq!(timeframe_to_granularity(Timeframe::D1).unwrap(), "D");
    match timeframe_to_granularity(Timeframe::M3) {
        Err(AdapterError::InvalidRequest(m)) => assert_eq!(m, "Unsupported OANDA timeframe"),
        _ => panic!("invalid request expected"),
    }
    assert!(timeframe_to_granularity(Timeframe::MS500).is_err());
}

#[test]
fn twelvedata_intervals() {
    assert_eq!(timeframe_to_interval(Timeframe::M15).unwrap(), "15min");
    assert_eq!(timeframe_to_interval(Timeframe::H4).unwrap(), "4h");
    assert_eq!(timeframe_to_interval(Timeframe::D1).unwrap(), "1day");
    match timeframe_to_interval(Timeframe::MS100) {
        Err(AdapterError::InvalidRequest(m)) => assert_eq!(m, "Unsupported Twelve Data timeframe"),
        _ => panic!("invalid request expected"),
    }
}

#[test]
fn supported_timeframes_and_lengths() {
    assert!(is_supported_timeframe(Timeframe::M3));
    assert!(is_supported_timeframe(Timeframe::D1));
    assert!(!is_supported_timeframe(Timeframe::MS1000));
    assert_eq!(Timeframe::M3.to_milliseconds(), 180_000);
    assert_eq!(Timeframe::D1.to_milliseconds(), 86_400_000);
}

#[test]
fn three_minute_candles_come_from_one_minute_ones() {
    let p = oanda_request_plan(Timeframe::M3).unwrap();
    assert_eq!(p.granularity, "M1");
    assert_eq!(p.aggregate_ms, Some(180_000));
    let q = twelvedata_request_plan(Timeframe::M3).unwrap();
    assert_eq!(q.granularity, "1min");
    let r = oanda_request_plan(Timeframe::H1).unwrap();
    assert_eq!(r.granularity, "H1");
    assert_eq!(r.aggregate_ms, None);
    assert!(twelvedata_request_plan(Timeframe::MS200).is_err());
}

#[test]
fn buckets_and_groups() {
    assert_eq!(bucket_start(185_000, 180_000), 180_000);
    assert_eq!(bucket_start(179_999, 180_000), 0);
    let times = vec![0, 60_000, 120_000, 180_000, 240_000, 420_000];
    let groups = group_into_intervals(&times, 180_000);
    assert_eq!(
        groups,
        vec![
            CandleGroup { start: 0, first: 0, end: 3 },
            CandleGroup { start: 180_000, first: 3, end: 5 },
            CandleGroup { start: 360_000, first: 5, end: 6 },
        ]
    );
    assert!(group_into_intervals(&vec![], 60_000).is_empty());
    let back = vec![180_000, 0, 180_000];
    assert_eq!(group_into_intervals(&back, 180_000).len(), 3);
}

#[test]
fn lines_are_cut_at_newlines() {
    let mut buffer = b"{\"a\":".to_vec();
    let lines = take_lines(&mut buffer, b"1}\r\n\n{\"b\":2}\n{\"c\"");
    assert_eq!(lines, vec![b"{\"a\":1}".to_vec(), b"{\"b\":2}".to_vec()]);
    assert_eq!(buffer, b"{\"c\"".to_vec());
    let more = take_lines(&mut buffer, b":3}\r\r\n");
    assert_eq!(more, vec![b"{\"c\":3}\r".to_vec()]);
    assert!(buffer.is_empty());
}

#[test]
fn chunking_does_not_change_the_lines() {
    let body = b"alpha\r\nbeta\n\ngamma\ndel";
    let mut whole_buf = Vec::new();
    let whole = take_lines(&mut whole_buf, body);
    for cut in 0..body.len() {
        let mut buf = Vec::new();
        let mut lines = take_lines(&mut buf, &body[..cut]);
        lines.extend(take_lines(&mut buf, &body[cut..]));
        assert_eq!(lines, whole);
        assert_eq!(buf, whole_buf);
    }
    assert_eq!(whole_buf, b"del".to_vec());
}

#[test]
fn trimming() {
    assert_eq!(trim("  eur/usd \t"), "eur/usd");
    assert_eq!(trim("\u{3000}x\u{a0}"), "x");
    assert_eq!(trim("   "), "");
}

#[test]
fn symbols_become_pair_names() {
    assert_eq!(normalize_symbol(" eurusd "), "EUR/USD");
    assert_eq!(normalize_symbol("gbp_jpy"), "GBP/JPY");
    assert_eq!(normalize_symbol("XAU/USD"), "XAU/USD");
    assert_eq!(normalize_symbol("btc"), "BTC");
    assert_eq!(try_normalize_symbol("usdjpy"), Some("USD/JPY".to_string()));
    assert_eq!(pair_name_of("EURUSD"), "EUR/USD");
    assert_eq!(pair_name_of(&pair_name_of("EURUSD")), "EUR/USD");
}

#[test]
fn a_split_inside_a_character_is_refused() {
    assert_eq!(try_normalize_symbol("äää"), None);
    assert_eq!(try_normalize_symbol("aäbcd"), Some("AÄ/BCD".to_string()));
    assert_eq!(try_normalize_symbol("aäb"), Some("AÄB".to_string()));
}

#[test]
fn candle_times_are_read_in_either_form() {
    assert_eq!(parse_datetime_ms("2024-01-02T03:04:05Z"), Some(1_704_164_645_000));
    assert_eq!(parse_datetime_ms("2024-01-02T05:04:05.250+02:00"), Some(1_704_164_645_250));
    assert_eq!(parse_datetime_ms("2024-01-02 03:04:05"), Some(1_704_164_645_000));
    assert_eq!(parse_datetime_ms("yesterday"), None);
    assert_eq!(parse_datetime_ms("1969-12-31T23:59:59Z"), Some((-1000i64) as u64));
}

#[test]
fn oanda_environment_names() {
    assert!(is_live_env("live"));
    assert!(is_live_env("FxTrade"));
    assert!(!is_live_env("practice"));
    assert!(!is_live_env("lives"));
    assert!(!is_live_env(""));
}

#[test]
fn cut_lines_hold_no_newline() {
    let mut buffer = Vec::new();
    let lines = take_lines(&mut buffer, b"a\r\n\r\nb\nc\r\rd\n\ne");
    assert_eq!(lines, vec![b"a".to_vec(), b"b".to_vec(), b"c\r\rd".to_vec()]);
    for l in &lines {
        assert!(!l.contains(&b'\n'));
    }
    assert_eq!(buffer, b"e".to_vec());
}
