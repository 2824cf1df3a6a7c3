use last_port::serial::{Manager, PortConfig, SerialError};

#[test]
fn manager_starts_closed() {
    let m: Manager<Vec<u8>> = Manager::new();
    assert!(!m.is_open());
    assert!(m.session().ok().is_none());
    assert!(m.current_port().is_none());
}

#[test]
fn manager_write_when_closed_returns_not_opened() {
    let m: Manager<Vec<u8>> = Manager::new();
    let err = m.session().unwrap_err();
    assert!(matches!(err, SerialError::NotOpened));
}

#[test]
fn manager_close_when_closed_returns_not_opened() {
    let mut m: Manager<Vec<u8>> = Manager::new();
    let err = m.close().unwrap_err();
    assert!(matches!(err, SerialError::NotOpened));
}

#[test]
fn open_then_close_round_trip() {
    let mut m: Manager<u32> = Manager::default();
    let cfg = PortConfig::default();
    assert!(m.check_open("/dev/ttyUSB0", &cfg).is_ok());
    let info = m.open("/dev/ttyUSB0", &cfg, || Ok(7)).unwrap();
    assert_eq!(info.name, "/dev/ttyUSB0");
    assert_eq!(info.kind, "unknown");
    assert!(m.is_open());
    assert_eq!(m.current_port(), Some(info));
    assert_eq!(*m.session().unwrap(), 7);
    assert!(m.close().is_ok());
    assert!(!m.is_open());
    assert!(matches!(m.close(), Err(SerialError::NotOpened)));
}

#[test]
fn second_open_is_busy() {
    let mut m: Manager<u32> = Manager::new();
    let cfg = PortConfig::default();
    m.open("/dev/ttyUSB0", &cfg, || Ok(1)).unwrap();
    let err = m.check_open("/dev/ttyUSB1", &cfg).unwrap_err();
    assert_eq!(err.message(), "port busy: /dev/ttyUSB1");
    assert_eq!(m.current_port().unwrap().name, "/dev/ttyUSB0");
}

#[test]
fn invalid_config_is_refused_first() {
    let mut m: Manager<u32> = Manager::new();
    let bad = PortConfig { baud_rate: 12345, ..PortConfig::default() };
    let err = m.check_open("/dev/ttyUSB0", &bad).unwrap_err();
    assert_eq!(err.message(), "invalid config: unsupported baud_rate: 12345");
    m.open("/dev/ttyUSB0", &PortConfig::default(), || Ok(1)).unwrap();
    let err = m.check_open("/dev/ttyUSB1", &bad).unwrap_err();
    assert!(matches!(err, SerialError::InvalidConfig(_)));
}

#[test]
fn failed_open_leaves_slot_empty() {
    let mut m: Manager<u32> = Manager::new();
    let cfg = PortConfig::default();
    let err = m
        .open("/dev/ttyUSB9", &cfg, || Err(SerialError::PortNotFound("/dev/ttyUSB9".into())))
        .unwrap_err();
    assert_eq!(err.message(), "port not found: /dev/ttyUSB9");
    assert!(!m.is_open());
    assert!(m.current_port().is_none());
}

#[test]
fn open_while_open_is_busy_and_leaves_slot() {
    let mut m: Manager<u32> = Manager::new();
    let cfg = PortConfig::default();
    m.open("/dev/ttyUSB0", &cfg, || Ok(1)).unwrap();
    let mut called = false;
    let err = m
        .open("/dev/ttyUSB1", &cfg, || {
            called = true;
            Ok(2)
        })
        .unwrap_err();
    assert!(!called);
    assert!(matches!(err, SerialError::PortBusy(ref n) if n == "/dev/ttyUSB1"));
    assert_eq!(m.current_port().unwrap().name, "/dev/ttyUSB0");
    assert_eq!(*m.session().unwrap(), 1);
}

#[test]
fn open_with_invalid_config_is_refused_before_busy() {
    let mut m: Manager<u32> = Manager::new();
    let bad = PortConfig { read_timeout_ms: 0, ..PortConfig::default() };
    let mut called = false;
    let err = m
        .open("/dev/ttyUSB0", &bad, || {
            called = true;
            Ok(1)
        })
        .unwrap_err();
    assert!(!called);
    assert_eq!(err.message(), "invalid config: read_timeout_ms must be > 0");
    assert!(!m.is_open());
    m.open("/dev/ttyUSB0", &PortConfig::default(), || Ok(1)).unwrap();
    let err = m.open("/dev/ttyUSB1", &bad, || Ok(2)).unwrap_err();
    assert!(matches!(err, SerialError::InvalidConfig(_)));
    assert_eq!(m.current_port().unwrap().name, "/dev/ttyUSB0");
}
