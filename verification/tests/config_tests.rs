use pattern_space::config::ConfigError;
use pattern_space::config::listen_port;
use pattern_space::config::parse_port;

#[test]
fn listen_port_defaults_when_unset() {
    assert_eq!(listen_port(None), Ok(10000));
}

#[test]
fn listen_port_parses_supplied_value() {
    let raw = String::from("8080");
    assert_eq!(listen_port(Some(&raw)), Ok(8080));
}

#[test]
fn parse_port_accepts_extremes() {
    assert_eq!(parse_port("0"), Ok(0));
    assert_eq!(parse_port("65535"), Ok(65535));
}

#[test]
fn parse_port_accepts_leading_zeros() {
    assert_eq!(parse_port("000080"), Ok(80));
}

#[test]
fn parse_port_accepts_leading_plus_sign() {
    assert_eq!(parse_port("+8080"), Ok(8080));
    assert_eq!(parse_port("+"), Err(ConfigError::InvalidPort));
}

#[test]
fn parse_port_rejects_out_of_range() {
    assert_eq!(parse_port("65536"), Err(ConfigError::InvalidPort));
    assert_eq!(parse_port("999999999999"), Err(ConfigError::InvalidPort));
}

#[test]
fn parse_port_rejects_non_numerals() {
    assert_eq!(parse_port(""), Err(ConfigError::InvalidPort));
    assert_eq!(parse_port("80a"), Err(ConfigError::InvalidPort));
    assert_eq!(parse_port("-1"), Err(ConfigError::InvalidPort));
    assert_eq!(parse_port(" 80"), Err(ConfigError::InvalidPort));
}
