use last_port::serial::PortConfig;
use last_port::startup::{harness_config, parse_count, parse_device_spec, probe_backoff_secs, probe_should_log};

#[test]
fn probe_backoff_switches_after_six_hundred_rounds() {
    assert_eq!(probe_backoff_secs(1), 2);
    assert_eq!(probe_backoff_secs(30), 2);
    assert_eq!(probe_backoff_secs(600), 2);
    assert_eq!(probe_backoff_secs(601), 60);
    assert_eq!(probe_backoff_secs(u64::MAX), 60);
}

#[test]
fn probe_logs_first_rounds_and_every_thirtieth() {
    assert!(probe_should_log(1));
    assert!(probe_should_log(3));
    assert!(!probe_should_log(4));
    assert!(probe_should_log(30));
    assert!(!probe_should_log(31));
    assert!(probe_should_log(60));
}

#[test]
fn device_spec_is_split_at_its_only_colon() {
    assert_eq!(parse_device_spec("/dev/ttyUSB3:115200"), Some(("/dev/ttyUSB3".to_string(), 115200)));
    assert_eq!(parse_device_spec("/dev/ttyUSB3:9600"), Some(("/dev/ttyUSB3".to_string(), 9600)));
    assert_eq!(parse_device_spec("COM3:+57600"), Some(("COM3".to_string(), 57600)));
}

#[test]
fn device_spec_baud_falls_back() {
    assert_eq!(parse_device_spec("/dev/ttyS0:fast"), Some(("/dev/ttyS0".to_string(), 115200)));
    assert_eq!(parse_device_spec("/dev/ttyS0:"), Some(("/dev/ttyS0".to_string(), 115200)));
    assert_eq!(parse_device_spec("/dev/ttyS0:4294967296"), Some(("/dev/ttyS0".to_string(), 115200)));
    assert_eq!(parse_device_spec("/dev/ttyS0:4294967295"), Some(("/dev/ttyS0".to_string(), u32::MAX)));
    assert_eq!(parse_device_spec("/dev/ttyS0:-1"), Some(("/dev/ttyS0".to_string(), 115200)));
}

#[test]
fn device_spec_needs_exactly_one_colon() {
    assert_eq!(parse_device_spec("/dev/ttyS0"), None);
    assert_eq!(parse_device_spec("a:b:c"), None);
    assert_eq!(parse_device_spec(""), None);
    assert_eq!(parse_device_spec(":9600"), Some((String::new(), 9600)));
}

#[test]
fn counts_parse_or_default() {
    assert_eq!(parse_count("2000", 6000), 2000);
    assert_eq!(parse_count("abc", 2000), 2000);
    assert_eq!(parse_count("", 6000), 6000);
    assert_eq!(parse_count("+12", 0), 12);
    assert_eq!(parse_count("1 2", 5), 5);
}

#[test]
fn harness_config_is_default_at_baud() {
    let cfg = harness_config(115200);
    let d = PortConfig::default();
    assert_eq!(cfg.baud_rate, 115200);
    assert_eq!(cfg.data_bits, d.data_bits);
    assert_eq!(cfg.stop_bits, d.stop_bits);
    assert_eq!(cfg.parity, d.parity);
    assert_eq!(cfg.flow_control, d.flow_control);
    assert_eq!(cfg.read_timeout_ms, d.read_timeout_ms);
}
