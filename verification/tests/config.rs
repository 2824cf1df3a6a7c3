use last_port::serial::{DataBits, FlowControl, Parity, PortConfig, StopBits};

#[test]
fn default_is_valid() {
    assert!(PortConfig::default().validate().is_ok());
}

#[test]
fn common_bauds_are_valid() {
    for b in [9600, 115200, 921600, 1_000_000, 4_000_000] {
        let cfg = PortConfig {
            baud_rate: b,
            ..PortConfig::default()
        };
        assert!(cfg.validate().is_ok(), "baud {} should be valid", b);
    }
}

#[test]
fn zero_baud_is_rejected() {
    let cfg = PortConfig {
        baud_rate: 0,
        ..PortConfig::default()
    };
    assert!(cfg.validate().is_err());
}

#[test]
fn unknown_baud_is_rejected() {
    let cfg = PortConfig {
        baud_rate: 12345,
        ..PortConfig::default()
    };
    assert!(cfg.validate().is_err());
}

#[test]
fn zero_timeout_is_rejected() {
    let cfg = PortConfig {
        read_timeout_ms: 0,
        ..PortConfig::default()
    };
    assert!(cfg.validate().is_err());
}

#[test]
fn default_config_fields() {
    let cfg = PortConfig::default();
    assert_eq!(cfg.baud_rate, 9600);
    assert_eq!(cfg.data_bits, DataBits::Eight);
    assert_eq!(cfg.stop_bits, StopBits::One);
    assert_eq!(cfg.parity, Parity::Off);
    assert_eq!(cfg.flow_control, FlowControl::Off);
    assert_eq!(cfg.read_timeout_ms, 50);
}

#[test]
fn every_whitelisted_baud_is_valid() {
    let rates: [u32; 27] = [
        110, 300, 600, 1200, 2400, 4800, 9600, 14400, 19200, 38400, 57600, 115200, 128000,
        230400, 256000, 460800, 500000, 576000, 921600, 1000000, 1152000, 1500000, 2000000,
        2500000, 3000000, 3500000, 4000000,
    ];
    for b in rates {
        let cfg = PortConfig { baud_rate: b, ..PortConfig::default() };
        assert!(cfg.validate().is_ok());
    }
    for b in [1, 109, 111, 9601, 4000001, u32::MAX] {
        let cfg = PortConfig { baud_rate: b, ..PortConfig::default() };
        assert!(cfg.validate().is_err());
    }
}

#[test]
fn unknown_baud_message() {
    let cfg = PortConfig { baud_rate: 12345, ..PortConfig::default() };
    assert_eq!(cfg.validate().unwrap_err(), "unsupported baud_rate: 12345");
    let cfg = PortConfig { baud_rate: 0, ..PortConfig::default() };
    assert_eq!(cfg.validate().unwrap_err(), "unsupported baud_rate: 0");
}

#[test]
fn zero_timeout_message() {
    let cfg = PortConfig { read_timeout_ms: 0, ..PortConfig::default() };
    assert_eq!(cfg.validate().unwrap_err(), "read_timeout_ms must be > 0");
}

#[test]
fn baud_is_checked_before_timeout() {
    let cfg = PortConfig { baud_rate: 7, read_timeout_ms: 0, ..PortConfig::default() };
    assert_eq!(cfg.validate().unwrap_err(), "unsupported baud_rate: 7");
}

#[test]
fn timeout_is_read_timeout_in_millis() {
    let cfg = PortConfig { read_timeout_ms: 1234, ..PortConfig::default() };
    assert_eq!(cfg.timeout(), std::time::Duration::from_millis(1234));
    assert_eq!(cfg.timeout().as_millis(), 1234);
}
