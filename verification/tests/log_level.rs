use rpc::log_level::ParseError;
use rpc::LogLevel;
use std::str::FromStr;

#[test]
fn loglevel_given_str_converts() {
    for (levelstr, loglevel) in &[
        ("debug", LogLevel::Debug),
        ("info", LogLevel::Info),
        ("warn", LogLevel::Warn),
        ("error", LogLevel::Error),
    ] {
        let level = LogLevel::from_str(levelstr);
        assert_eq!(level.unwrap(), *loglevel);
    }
}

#[test]
fn loglevel_given_bad_str_fails() {
    let level = LogLevel::from_str("deffbug");
    assert!(level.is_err());
}

#[test]
fn loglevel_to_string() {
    for (levelstr, loglevel) in &[
        ("debug", LogLevel::Debug),
        ("info", LogLevel::Info),
        ("warn", LogLevel::Warn),
        ("error", LogLevel::Error),
    ] {
        let level = loglevel.as_ref();
        assert_eq!(&level, levelstr);
    }
}

#[test]
fn loglevel_parse_through_the_trait() {
    assert_eq!("info".parse::<LogLevel>(), Ok(LogLevel::Info));
    assert_eq!("Info".parse::<LogLevel>(), Err(ParseError::VariantNotFound));
    assert_eq!("".parse::<LogLevel>(), Err(ParseError::VariantNotFound));
    assert_eq!("warning".parse::<LogLevel>(), Err(ParseError::VariantNotFound));
}

#[test]
fn loglevel_from_bytes_matches_exactly() {
    assert_eq!(LogLevel::from_bytes(b"debug"), Ok(LogLevel::Debug));
    assert_eq!(LogLevel::from_bytes(b"debug "), Err(ParseError::VariantNotFound));
    assert_eq!(LogLevel::from_bytes(b"debu"), Err(ParseError::VariantNotFound));
    assert_eq!(LogLevel::from_bytes(&[0xff, 0xfe]), Err(ParseError::VariantNotFound));
}

#[test]
fn loglevel_name_round_trip() {
    for level in [LogLevel::Debug, LogLevel::Info, LogLevel::Warn, LogLevel::Error] {
        assert_eq!(LogLevel::from_str(level.as_ref()), Ok(level));
    }
}
