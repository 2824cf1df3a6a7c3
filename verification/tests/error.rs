use last_port::serial::{IoErrorKind, IoFailure, SerialError, SerialPortErrorKind, SerialPortFailure};

#[test]
fn display_messages() {
    assert_eq!(
        SerialError::PortNotFound("/dev/ttyUSB0".into()).message(),
        "port not found: /dev/ttyUSB0"
    );
    assert_eq!(SerialError::NotOpened.message(), "not opened");
    assert_eq!(
        SerialError::InvalidConfig("bad baud".into()).message(),
        "invalid config: bad baud"
    );
}

#[test]
fn every_variant_has_its_prefix() {
    assert_eq!(SerialError::PortBusy("/dev/ttyACM0".into()).message(), "port busy: /dev/ttyACM0");
    assert_eq!(
        SerialError::Io(IoFailure { kind: IoErrorKind::Other, message: "broken pipe".into() }).message(),
        "io error: broken pipe"
    );
    assert_eq!(
        SerialError::Serial(SerialPortFailure {
            kind: SerialPortErrorKind::InvalidInput,
            description: "bad flow".into()
        })
        .message(),
        "serialport error: bad flow"
    );
    assert_eq!(SerialError::Poisoned("x".into()).message(), "internal lock poisoned: x");
}
