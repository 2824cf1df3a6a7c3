//! Errors of the serial layer, and the messages shown for them.

use vstd::prelude::*;

verus! {

/// The kinds of I/O failure that the serial logic tells apart.
#[derive(Debug, Clone, Copy, PartialEq, Eq, Structural)]
pub enum IoErrorKind {
    /// The file or device does not exist.
    NotFound,
    /// A blocking operation ran out of time.
    TimedOut,
    /// Any other kind of I/O failure.
    Other,
}

/// Categories of failure reported by the serial-port driver.
#[derive(Debug, Clone, Copy, PartialEq, Eq, Structural)]
pub enum SerialPortErrorKind {
    /// The device is not available (in use elsewhere, or gone).
    NoDevice,
    /// A parameter was incorrect.
    InvalidInput,
    /// An unknown failure.
    Unknown,
    /// An I/O failure of the given kind.
    Io(IoErrorKind),
}

/// A failure reported by the serial-port driver: its kind and the
/// description meant for users.
#[derive(Debug, Clone)]
pub struct SerialPortFailure {
    pub kind: SerialPortErrorKind,
    pub description: String,
}

/// An I/O failure: its kind and its rendered message.
#[derive(Debug, Clone)]
pub struct IoFailure {
    pub kind: IoErrorKind,
    pub message: String,
}

/// Every error of the serial layer.
#[derive(Debug)]
pub enum SerialError {
    /// No port of that name exists.
    PortNotFound(String),
    /// The port (or the single session slot) is taken.
    PortBusy(String),
    /// The configuration was rejected; the message says why.
    InvalidConfig(String),
    /// No session is open.
    NotOpened,
    /// An I/O operation failed.
    Io(IoFailure),
    /// The serial-port driver failed.
    Serial(SerialPortFailure),
    /// An internal lock was poisoned.
    Poisoned(String),
}

/// The abstract content of a [`SerialError`]: its variant and the text it carries.
pub enum SerialErrorView {
    PortNotFound(Seq<char>),
    PortBusy(Seq<char>),
    InvalidConfig(Seq<char>),
    NotOpened,
    Io(IoErrorKind, Seq<char>),
    Serial(SerialPortErrorKind, Seq<char>),
    Poisoned(Seq<char>),
}

impl View for SerialError {
    type V = SerialErrorView;

    open spec fn view(&self) -> SerialErrorView {
        match self {
            SerialError::PortNotFound(n) => SerialErrorView::PortNotFound(n@),
            SerialError::PortBusy(n) => SerialErrorView::PortBusy(n@),
            SerialError::InvalidConfig(m) => SerialErrorView::InvalidConfig(m@),
            SerialError::NotOpened => SerialErrorView::NotOpened,
            SerialError::Io(f) => SerialErrorView::Io(f.kind, f.message@),
            SerialError::Serial(f) => SerialErrorView::Serial(f.kind, f.description@),
            SerialError::Poisoned(m) => SerialErrorView::Poisoned(m@),
        }
    }
}

/// The message shown for an error: a fixed prefix naming the variant, then
/// the text the error carries.
pub open spec fn error_message(e: SerialErrorView) -> Seq<char> {
    match e {
        SerialErrorView::PortNotFound(n) => "port not found: "@ + n,
        SerialErrorView::PortBusy(n) => "port busy: "@ + n,
        SerialErrorView::InvalidConfig(m) => "invalid config: "@ + m,
        SerialErrorView::NotOpened => "not opened"@,
        SerialErrorView::Io(_, m) => "io error: "@ + m,
        SerialErrorView::Serial(_, d) => "serialport error: "@ + d,
        SerialErrorView::Poisoned(m) => "internal lock poisoned: "@ + m,
    }
}

fn prefixed(prefix: &str, text: &String) -> (s: String)
    ensures
        s@ == prefix@ + text@,
{
    let mut s = String::from_str(prefix);
    s.append(text.as_str());
    s
}

impl SerialError {
    /// The message shown to users for this error (what its `Display` prints).
    pub fn message(&self) -> (s: String)
        ensures
            s@ == error_message(self@),
    {
        match self {
            SerialError::PortNotFound(n) => prefixed("port not found: ", n),
            SerialError::PortBusy(n) => prefixed("port busy: ", n),
            SerialError::InvalidConfig(m) => prefixed("invalid config: ", m),
            SerialError::NotOpened => String::from_str("not opened"),
            SerialError::Io(f) => prefixed("io error: ", &f.message),
            SerialError::Serial(f) => prefixed("serialport error: ", &f.description),
            SerialError::Poisoned(m) => prefixed("internal lock poisoned: ", m),
        }
    }
}

} // verus!
