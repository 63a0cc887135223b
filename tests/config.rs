use railroute::config::{parse_port, port_from_arg, Config, PortError, DEFAULT_PORT};

#[test]
fn parses_plain_port() {
    assert_eq!(parse_port("4000"), Ok(4000));
    assert_eq!(parse_port("0"), Ok(0));
    assert_eq!(parse_port("+42"), Ok(42));
    assert_eq!(parse_port("007"), Ok(7));
}

#[test]
fn rejects_non_numbers() {
    assert_eq!(parse_port(""), Err(PortError::NotANumber));
    assert_eq!(parse_port("+"), Err(PortError::NotANumber));
    assert_eq!(parse_port("abc"), Err(PortError::NotANumber));
    assert_eq!(parse_port("-1"), Err(PortError::NotANumber));
    assert_eq!(parse_port(" 80"), Err(PortError::NotANumber));
    assert_eq!(parse_port("80x"), Err(PortError::NotANumber));
    assert_eq!(parse_port("99999999999999999999x"), Err(PortError::NotANumber));
}

#[test]
fn range_limits() {
    assert_eq!(parse_port("18446744073709551615"), Ok(u64::MAX));
    assert_eq!(parse_port("18446744073709551616"), Err(PortError::OutOfRange));
    assert_eq!(parse_port("99999999999999999999"), Err(PortError::OutOfRange));
}

#[test]
fn default_port_when_absent() {
    assert_eq!(DEFAULT_PORT, 3000);
    assert_eq!(port_from_arg(None), Ok(3000));
    assert_eq!(port_from_arg(Some("4000")), Ok(4000));
}

#[test]
fn config_from_arguments() {
    let c = Config::from_args(Some("4000"), "127.0.0.1:5000", None).unwrap();
    assert_eq!(c.port, 4000);
    assert_eq!(c.target, "127.0.0.1:5000");
    assert_eq!(c.packet_log, None);
    let c = Config::from_args(None, "example.org:80", Some("")).unwrap();
    assert_eq!(c.port, 3000);
    assert_eq!(c.packet_log, None);
    let c = Config::from_args(None, "example.org:80", Some("packets.log")).unwrap();
    assert_eq!(c.packet_log, Some("packets.log".to_string()));
    assert!(matches!(
        Config::from_args(Some("port"), "example.org:80", None),
        Err(PortError::NotANumber)
    ));
}
