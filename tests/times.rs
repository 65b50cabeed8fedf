use poke::{
    current_pair, get_file_times, pair_from_date, parse_date, resolve_date, resolve_now, Error,
    FileStamp, IoFailure, TimestampPair,
};

fn stamp(seconds: i64, nanos: u32) -> FileStamp {
    FileStamp { seconds, nanos }
}

#[test]
fn now_gives_both_times_one_instant() {
    let t = stamp(1_700_000_000, 123);
    let p = resolve_now(t);
    assert_eq!(p, TimestampPair { access: t, modification: t });
    assert_eq!(resolve_now(t), p);
    let c = current_pair();
    assert_eq!(c.access, c.modification);
    assert!(c.access.seconds > 1_500_000_000);
}

#[test]
fn reference_times_stay_apart() {
    let a = stamp(100, 5);
    let m = stamp(200, 7);
    let p = get_file_times("ref.txt", Ok((a, m))).unwrap();
    assert_eq!(p.access, a);
    assert_eq!(p.modification, m);
    assert_ne!(p.access, p.modification);
}

#[test]
fn missing_reference_is_file_not_found() {
    match get_file_times("ref.txt", Err(IoFailure::NotFound("gone".to_string()))) {
        Err(Error::FileNotFound(p)) => assert_eq!(p, "ref.txt"),
        other => panic!("{:?}", other),
    }
}

#[test]
fn reference_read_failure_is_io_error() {
    match get_file_times("ref.txt", Err(IoFailure::Other("denied".to_string()))) {
        Err(Error::IoError(m)) => assert_eq!(m, "denied"),
        other => panic!("{:?}", other),
    }
}

#[test]
fn absolute_date_parses() {
    let t = parse_date("1/01/2001 00:00").unwrap();
    // 2001-01-01T00:00 in any time zone lies within a day of 978307200
    assert!((t.seconds - 978_307_200).abs() <= 86_400);
    assert_eq!(t.nanos, 0);
    let p = resolve_date("1/01/2001 00:00").unwrap();
    assert_eq!(p.access, p.modification);
    assert_eq!(p.access, t);
}

#[test]
fn named_month_and_relative_dates_parse() {
    assert!(parse_date("1 january 2001 0am").is_ok());
    assert!(parse_date("last friday 2pm").is_ok());
}

#[test]
fn bad_date_is_date_parse_error() {
    match resolve_date("not a date at all") {
        Err(Error::DateParseError(m)) => assert!(!m.is_empty()),
        other => panic!("{:?}", other),
    }
}

#[test]
fn parsed_date_fills_both_times() {
    let t = stamp(978_307_200, 0);
    assert_eq!(pair_from_date(Ok(t)).unwrap(), TimestampPair { access: t, modification: t });
    match pair_from_date(Err(Error::DateParseError("x".to_string()))) {
        Err(Error::DateParseError(m)) => assert_eq!(m, "x"),
        other => panic!("{:?}", other),
    }
}

#[test]
fn parsable_text_is_ascii_with_short_numbers() {
    assert!(poke::is_parsable("1/01/2001 00:00"));
    assert!(poke::is_parsable("999999 days"));
    assert!(poke::is_parsable(""));
    assert!(poke::is_parsable("12:00:00.123456"));
    assert!(poke::is_parsable("10.30"));
    assert!(poke::is_parsable("ends with ."));
    assert!(poke::is_parsable("123456 x 123456"));
    assert!(!poke::is_parsable("1000000 days"));
    assert!(!poke::is_parsable("1:00:00+9999999:00"));
    assert!(!poke::is_parsable("12:00:00.½"));
    assert!(!poke::is_parsable("1:00:00.x"));
    assert!(!poke::is_parsable("1:00:00. "));
    assert!(!poke::is_parsable("12:00:00.1234567"));
}

#[test]
fn unsafe_text_is_refused_not_parsed() {
    let texts = [
        "1000000000 days",
        "9999999 weeks ago",
        "1:00:00+1193047:00",
        "12:00:00.\u{0663}",
        "1:00:00.x",
        "1:00:00. ",
    ];
    for text in texts {
        match parse_date(text) {
            Err(Error::DateParseError(m)) => assert!(m.starts_with("Refused: "), "{}", m),
            other => panic!("{}: {:?}", text, other),
        }
        assert!(matches!(resolve_date(text), Err(Error::DateParseError(ref m)) if m.starts_with("Refused: ")));
    }
}

#[test]
fn parser_errors_are_not_refusals() {
    match parse_date("not a date at all") {
        Err(Error::DateParseError(m)) => assert!(!m.starts_with("Refused: "), "{}", m),
        other => panic!("{:?}", other),
    }
}

#[test]
fn large_but_allowed_numbers_do_not_panic() {
    assert!(parse_date("999999 weeks").is_ok());
    assert!(parse_date("999999 weeks ago").is_ok());
    assert!(parse_date("999999 years").is_err());
    let _ = parse_date("1:00:00+999999:00");
    let _ = parse_date("1:00:00+999999");
    let _ = parse_date("12:00:00.999999");
    let _ = parse_date("999999.999999");
    let _ = parse_date("999999:999999:999999.999999");
}

#[test]
fn now_has_nanoseconds_below_one_second() {
    let c = current_pair();
    assert!(c.access.nanos < 1_000_000_000);
}
