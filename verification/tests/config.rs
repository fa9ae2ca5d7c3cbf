use ipc_flowmeter::config::{server_override, Config, ParityConfig, ServerOverride};
use ipc_flowmeter::parse::{parse_unsigned, split, trim, IntParseError};

#[test]
fn default_config() {
    let c = Config::default();
    assert_eq!(c.serial_port, "/dev/ttyS0");
    assert_eq!(c.baud_rate, 9600);
    assert_eq!(c.device_addresses, vec![2, 3]);
    assert_eq!(c.update_interval_seconds, 10);
    assert_eq!(c.timeout_ms, 1000);
    assert_eq!(c.parity, ParityConfig::NoParity);
}

#[test]
fn config_from_command_line_defaults() {
    let c = Config::from_matches("/dev/ttyS0", "9600", "2,3", "10").unwrap();
    assert_eq!(c, Config::default());
}

#[test]
fn config_from_command_line_values() {
    let c = Config::from_matches("/dev/ttyUSB1", "+115200", " 4 , 5,\t250 ", "0").unwrap();
    assert_eq!(c.serial_port, "/dev/ttyUSB1");
    assert_eq!(c.baud_rate, 115200);
    assert_eq!(c.device_addresses, vec![4, 5, 250]);
    assert_eq!(c.update_interval_seconds, 0);
}

#[test]
fn config_errors_come_in_field_order() {
    assert_eq!(Config::from_matches("p", "fast", "x", "y"), Err(IntParseError::InvalidDigit));
    assert_eq!(Config::from_matches("p", "4294967296", "1", "1"), Err(IntParseError::PosOverflow));
    assert_eq!(Config::from_matches("p", "9600", "2,,3", "1"), Err(IntParseError::Empty));
    assert_eq!(Config::from_matches("p", "9600", "2,256", "1"), Err(IntParseError::PosOverflow));
    assert_eq!(Config::from_matches("p", "9600", "2", ""), Err(IntParseError::Empty));
    assert_eq!(Config::from_matches("p", "9600", "2", " 10"), Err(IntParseError::InvalidDigit));
}

#[test]
fn unsigned_parsing_matches_std() {
    let cases = ["", "+", "-", "-0", "0", "+7", "007", "255", "256", "12a", "99999999999999999999x", "x9", "1 ", "٣"];
    for s in cases {
        let expected = match s.parse::<u8>() {
            Ok(v) => Ok(v as u64),
            Err(e) => Err(match e.kind() {
                std::num::IntErrorKind::Empty => IntParseError::Empty,
                std::num::IntErrorKind::PosOverflow => IntParseError::PosOverflow,
                _ => IntParseError::InvalidDigit,
            }),
        };
        assert_eq!(parse_unsigned(s, 255), expected, "{:?}", s);
    }
    assert_eq!(parse_unsigned("18446744073709551615", u64::MAX), Ok(u64::MAX));
    assert_eq!(parse_unsigned("18446744073709551616", u64::MAX), Err(IntParseError::PosOverflow));
}

#[test]
fn parse_error_messages_match_std() {
    assert_eq!(IntParseError::Empty.message(), "".parse::<u8>().unwrap_err().to_string());
    assert_eq!(IntParseError::InvalidDigit.message(), "a".parse::<u8>().unwrap_err().to_string());
    assert_eq!(IntParseError::PosOverflow.message(), "300".parse::<u8>().unwrap_err().to_string());
}

#[test]
fn trim_and_split_match_std() {
    for s in ["", "  ", " a b ", "\u{3000}x\u{a0}", "a,b,,c,", ","] {
        assert_eq!(trim(s), s.trim());
        let pieces: Vec<String> = s.split(',').map(|p| p.to_string()).collect();
        assert_eq!(split(s, ','), pieces);
    }
}

#[test]
fn server_flags_and_port_arguments() {
    let keep = ServerOverride { enabled: false, port: 8080, invalid_port: false };
    assert_eq!(server_override(false, 8080, false, None), keep);
    assert_eq!(server_override(false, 8080, true, None), ServerOverride { enabled: true, ..keep });
    assert_eq!(
        server_override(false, 8080, false, Some("9001")),
        ServerOverride { enabled: true, port: 9001, invalid_port: false }
    );
    assert_eq!(
        server_override(true, 8080, false, Some("70000")),
        ServerOverride { enabled: true, port: 8080, invalid_port: true }
    );
    assert_eq!(
        server_override(false, 3000, true, Some("x")),
        ServerOverride { enabled: true, port: 3000, invalid_port: true }
    );
}
