use echo_service::config::{
    default_port, default_second_port, describe_config_error, load_config, parse_port, Config,
    ConfigError,
};

#[test]
fn default_port_values() {
    assert_eq!(default_port(), 8080);
    assert_eq!(default_second_port(), 8888);
}

#[test]
fn defaults_when_both_unset() {
    let c = load_config(None, None).unwrap();
    assert_eq!(
        c,
        Config {
            port: 8080,
            second_port: 8888
        }
    );
}

#[test]
fn parse_port_accepts_plain_decimals() {
    assert_eq!(parse_port(&b"8080".to_vec()), Some(8080));
    assert_eq!(parse_port(&b"0".to_vec()), Some(0));
    assert_eq!(parse_port(&b"65535".to_vec()), Some(65535));
    assert_eq!(parse_port(&b"00080".to_vec()), Some(80));
}

#[test]
fn parse_port_accepts_leading_plus_sign() {
    assert_eq!(parse_port(&b"+8080".to_vec()), Some(8080));
}

#[test]
fn parse_port_rejects_out_of_range_values() {
    assert_eq!(parse_port(&b"65536".to_vec()), None);
    assert_eq!(parse_port(&b"99999".to_vec()), None);
    assert_eq!(parse_port(&b"999999999999999999999".to_vec()), None);
}

#[test]
fn parse_port_rejects_malformed_values() {
    assert_eq!(parse_port(&b"".to_vec()), None);
    assert_eq!(parse_port(&b"+".to_vec()), None);
    assert_eq!(parse_port(&b"abc".to_vec()), None);
    assert_eq!(parse_port(&b"80a".to_vec()), None);
    assert_eq!(parse_port(&b" 80".to_vec()), None);
    assert_eq!(parse_port(&b"-1".to_vec()), None);
    assert_eq!(parse_port(&b"8 080".to_vec()), None);
}

#[test]
fn load_config_uses_supplied_values() {
    let c = load_config(Some(b"1234".to_vec()), Some(b"5678".to_vec())).unwrap();
    assert_eq!(c.port, 1234);
    assert_eq!(c.second_port, 5678);
}

#[test]
fn load_config_mixes_value_and_default() {
    let c = load_config(Some(b"9000".to_vec()), None).unwrap();
    assert_eq!(c.port, 9000);
    assert_eq!(c.second_port, 8888);

    let c = load_config(None, Some(b"9001".to_vec())).unwrap();
    assert_eq!(c.port, 8080);
    assert_eq!(c.second_port, 9001);
}

#[test]
fn load_config_reports_bad_first_port() {
    let r = load_config(Some(b"not-a-port".to_vec()), Some(b"8888".to_vec()));
    assert_eq!(r, Err(ConfigError::InvalidPort));
}

#[test]
fn load_config_reports_first_error_first() {
    let r = load_config(Some(b"bad".to_vec()), Some(b"also bad".to_vec()));
    assert_eq!(r, Err(ConfigError::InvalidPort));
}

#[test]
fn load_config_reports_bad_second_port() {
    let r = load_config(Some(b"8080".to_vec()), Some(b"65536".to_vec()));
    assert_eq!(r, Err(ConfigError::InvalidSecondPort));

    let r = load_config(None, Some(b"x".to_vec()));
    assert_eq!(r, Err(ConfigError::InvalidSecondPort));
}

#[test]
fn config_errors_are_described() {
    assert_eq!(
        describe_config_error(&ConfigError::InvalidPort),
        "PORT is not an integer between 0 and 65535"
    );
    assert_eq!(
        describe_config_error(&ConfigError::InvalidSecondPort),
        "SECOND_PORT is not an integer between 0 and 65535"
    );
}
