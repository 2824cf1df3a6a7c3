//! Descriptions of serial ports, and the decisions made around opening a
//! port and running its background reader.

use vstd::prelude::*;
use crate::serial::error::{IoErrorKind, SerialError, SerialErrorView, SerialPortErrorKind, SerialPortFailure};

verus! {

/// USB details of a port, as the driver enumerates them.
#[derive(Debug, Clone)]
pub struct UsbPortInfo {
    pub vid: u16,
    pub pid: u16,
    pub serial_number: Option<String>,
    pub manufacturer: Option<String>,
    pub product: Option<String>,
}

/// How a port is attached to the machine.
#[derive(Debug, Clone)]
pub enum SerialPortType {
    UsbPort(UsbPortInfo),
    PciPort,
    BluetoothPort,
    Unknown,
}

/// A port as the driver enumerates it: its system name and how it is attached.
#[derive(Debug, Clone)]
pub struct SerialPortInfo {
    pub port_name: String,
    pub port_type: SerialPortType,
}

/// A port as the user interface shows it.
#[derive(Debug, PartialEq, Eq)]
pub struct PortInfo {
    /// System name, used to open the port.
    pub name: String,
    /// Text for people.
    pub label: String,
    /// One of "usb", "bluetooth", "pci", "unknown".
    pub kind: String,
}

/// The text of a [`PortInfo`].
pub struct PortInfoView {
    pub name: Seq<char>,
    pub label: Seq<char>,
    pub kind: Seq<char>,
}

impl View for PortInfo {
    type V = PortInfoView;

    open spec fn view(&self) -> PortInfoView {
        PortInfoView { name: self.name@, label: self.label@, kind: self.kind@ }
    }
}

impl Clone for PortInfo {
    fn clone(&self) -> (r: Self)
        ensures
            r == *self,
    {
        PortInfo { name: self.name.clone(), label: self.label.clone(), kind: self.kind.clone() }
    }
}

/// The kind text for a way of attachment.
pub open spec fn kind_text(t: SerialPortType) -> Seq<char> {
    match t {
        SerialPortType::UsbPort(_) => "usb"@,
        SerialPortType::BluetoothPort => "bluetooth"@,
        SerialPortType::PciPort => "pci"@,
        SerialPortType::Unknown => "unknown"@,
    }
}

/// The label of an enumerated port: a USB port shows its product name, or
/// "USB Serial (<name>)" when it has none; any other port shows its name.
pub open spec fn label_text(info: SerialPortInfo) -> Seq<char> {
    match info.port_type {
        SerialPortType::UsbPort(u) => match u.product {
            Some(p) => p@,
            None => "USB Serial ("@ + info.port_name@ + ")"@,
        },
        _ => info.port_name@,
    }
}

/// How the user interface describes an enumerated port.
pub open spec fn describe(info: SerialPortInfo) -> PortInfoView {
    PortInfoView { name: info.port_name@, label: label_text(info), kind: kind_text(info.port_type) }
}

/// How the user interface describes a port that was opened by name.
pub open spec fn opened_view(name: Seq<char>) -> PortInfoView {
    PortInfoView { name: name, label: name, kind: "unknown"@ }
}

impl PortInfo {
    /// Describes an enumerated port for the user interface.
    pub fn from_spinfo(info: &SerialPortInfo) -> (p: PortInfo)
        ensures
            p@ == describe(*info),
    {
        let kind = match &info.port_type {
            SerialPortType::UsbPort(_) => String::from_str("usb"),
            SerialPortType::BluetoothPort => String::from_str("bluetooth"),
            SerialPortType::PciPort => String::from_str("pci"),
            SerialPortType::Unknown => String::from_str("unknown"),
        };
        let label = match &info.port_type {
            SerialPortType::UsbPort(u) => match &u.product {
                Some(p) => p.clone(),
                None => {
                    let mut l = String::from_str("USB Serial (");
                    l.append(info.port_name.as_str());
                    l.append(")");
                    l
                },
            },
            _ => info.port_name.clone(),
        };
        PortInfo { name: info.port_name.clone(), label, kind }
    }

    /// The description of a port opened by name: its name serves as label,
    /// and its kind is "unknown".
    pub fn opened(name: &str) -> (p: PortInfo)
        ensures
            p@ == opened_view(name@),
    {
        PortInfo {
            name: name.to_owned(),
            label: name.to_owned(),
            kind: String::from_str("unknown"),
        }
    }
}

/// Describes every port that the driver enumerated, in order; a failure of
/// the enumeration is reported as a driver error.
pub fn list_ports(available: Result<Vec<SerialPortInfo>, SerialPortFailure>) -> (r: Result<
    Vec<PortInfo>,
    SerialError,
>)
    ensures
        match available {
            Ok(ports) => r matches Ok(list) && list.len() == ports.len() && forall|i: int|
                0 <= i < ports.len() ==> #[trigger] list[i]@ == describe(ports[i]),
            Err(f) => r matches Err(e) && e@ == SerialErrorView::Serial(f.kind, f.description@),
        },
{
    match available {
        Ok(ports) => {
            let mut list: Vec<PortInfo> = Vec::new();
            let n = ports.len();
            for i in 0..n
                invariant
                    n == ports.len(),
                    list.len() == i,
                    forall|j: int| 0 <= j < i ==> #[trigger] list[j]@ == describe(ports[j]),
            {
                list.push(PortInfo::from_spinfo(&ports[i]));
            }
            Ok(list)
        },
        Err(f) => Err(SerialError::Serial(f)),
    }
}

/// The error reported when opening `name` failed: a missing device is
/// `PortNotFound`, an unavailable one is `PortBusy`, anything else is passed
/// on as a driver error.
pub open spec fn open_failure(name: Seq<char>, kind: SerialPortErrorKind, description: Seq<char>) -> SerialErrorView {
    match kind {
        SerialPortErrorKind::Io(IoErrorKind::NotFound) => SerialErrorView::PortNotFound(name),
        SerialPortErrorKind::NoDevice => SerialErrorView::PortBusy(name),
        _ => SerialErrorView::Serial(kind, description),
    }
}

/// Maps a failure of the driver to open `name` to the error reported.
pub fn classify_open_error(name: &str, failure: SerialPortFailure) -> (e: SerialError)
    ensures
        e@ == open_failure(name@, failure.kind, failure.description@),
{
    match failure.kind {
        SerialPortErrorKind::Io(IoErrorKind::NotFound) => SerialError::PortNotFound(name.to_owned()),
        SerialPortErrorKind::NoDevice => SerialError::PortBusy(name.to_owned()),
        _ => SerialError::Serial(failure),
    }
}

/// Opening fails with `PortNotFound` exactly when the device is missing and
/// with `PortBusy` exactly when it is unavailable, both naming the port;
/// every other driver failure is passed on unchanged, kind and description.
pub proof fn lemma_open_failure_cases(name: Seq<char>, kind: SerialPortErrorKind, description: Seq<char>)
    ensures
        open_failure(name, kind, description) is PortNotFound <==> kind == SerialPortErrorKind::Io(
            IoErrorKind::NotFound,
        ),
        open_failure(name, kind, description) is PortBusy <==> kind == SerialPortErrorKind::NoDevice,
        kind == SerialPortErrorKind::Io(IoErrorKind::NotFound) ==> open_failure(name, kind, description)
            == SerialErrorView::PortNotFound(name),
        kind == SerialPortErrorKind::NoDevice ==> open_failure(name, kind, description)
            == SerialErrorView::PortBusy(name),
        kind != SerialPortErrorKind::Io(IoErrorKind::NotFound) && kind != SerialPortErrorKind::NoDevice
            ==> open_failure(name, kind, description) == SerialErrorView::Serial(kind, description),
{
}

/// Size of the buffer the background reader reads into.
pub const READ_BUFFER_LEN: usize = 1024;

/// What the background reader does after one read.
#[derive(Debug, Clone, Copy, PartialEq, Eq, Structural)]
pub enum ReaderAction {
    /// Nothing arrived; read again.
    Continue,
    /// The given number of bytes arrived; hand them on.
    Deliver(usize),
    /// The port failed; end the reader.
    Stop,
}

/// The reader's decision for one read outcome: zero bytes or a timeout mean
/// "read again", bytes are delivered, any other failure ends the reader.
pub open spec fn reader_decision(read: Result<usize, IoErrorKind>) -> ReaderAction {
    match read {
        Ok(n) => if n == 0 { ReaderAction::Continue } else { ReaderAction::Deliver(n) },
        Err(IoErrorKind::TimedOut) => ReaderAction::Continue,
        Err(_) => ReaderAction::Stop,
    }
}

/// Decides what the background reader does after a read.
pub fn reader_action(read: Result<usize, IoErrorKind>) -> (a: ReaderAction)
    ensures
        a == reader_decision(read),
{
    match read {
        Ok(n) => if n == 0 {
            ReaderAction::Continue
        } else {
            ReaderAction::Deliver(n)
        },
        Err(IoErrorKind::TimedOut) => ReaderAction::Continue,
        Err(_) => ReaderAction::Stop,
    }
}

/// Every read that returned bytes hands all of them on: the reader reads
/// again without delivering only after a read of zero bytes or a timeout,
/// and it stops on every other failure.
pub proof fn lemma_reader_delivers_every_read(n: usize, kind: IoErrorKind)
    ensures
        1 <= n ==> reader_decision(Ok(n)) == ReaderAction::Deliver(n),
        reader_decision(Ok(n)) == ReaderAction::Continue <==> n == 0,
        reader_decision(Err(kind)) == ReaderAction::Continue <==> kind == IoErrorKind::TimedOut,
        reader_decision(Err(kind)) == ReaderAction::Stop <==> kind != IoErrorKind::TimedOut,
        !(reader_decision(Err(kind)) is Deliver),
{
}

/// A port that is not attached over USB is labelled with its system name,
/// so its label and its name agree; a USB port with a product name is
/// labelled with that name. Every description keeps the port's system name.
pub proof fn lemma_port_label(info: SerialPortInfo)
    ensures
        describe(info).name == info.port_name@,
        !(info.port_type is UsbPort) ==> describe(info).label == info.port_name@
            && describe(info).label == describe(info).name,
        info.port_type matches SerialPortType::UsbPort(u) ==> (u.product matches Some(p)
            ==> describe(info).label == p@),
        info.port_type matches SerialPortType::UsbPort(u) ==> (u.product is None
            ==> describe(info).label == "USB Serial ("@ + info.port_name@ + ")"@),
        describe(info).kind == "usb"@ <==> info.port_type is UsbPort,
        describe(info).kind == "bluetooth"@ <==> info.port_type is BluetoothPort,
        describe(info).kind == "pci"@ <==> info.port_type is PciPort,
        describe(info).kind == "unknown"@ <==> info.port_type is Unknown,
{
    reveal_strlit("usb");
    reveal_strlit("bluetooth");
    reveal_strlit("pci");
    reveal_strlit("unknown");
    assert("usb"@[0] != "pci"@[0]);
    assert("usb"@.len() != "bluetooth"@.len() && "usb"@.len() != "unknown"@.len());
    assert("pci"@.len() != "bluetooth"@.len() && "pci"@.len() != "unknown"@.len());
    assert("bluetooth"@.len() != "unknown"@.len());
}

/// A read into the reader's buffer reports at most [`READ_BUFFER_LEN`] bytes,
/// so every chunk the reader hands on holds between 1 and
/// [`READ_BUFFER_LEN`] bytes: exactly the bytes that read reported.
pub proof fn lemma_delivered_chunk_size(read: Result<usize, IoErrorKind>)
    requires
        read matches Ok(n) ==> n <= READ_BUFFER_LEN,
    ensures
        reader_decision(read) matches ReaderAction::Deliver(k) ==> read == Ok::<usize, IoErrorKind>(k)
            && 1 <= k <= READ_BUFFER_LEN,
{
}

/// The first `n` bytes of the read buffer, as the chunk handed on.
pub fn received_chunk(buf: &[u8], n: usize) -> (chunk: Vec<u8>)
    requires
        n <= buf@.len(),
    ensures
        chunk@ == buf@.subrange(0, n as int),
{
    let mut chunk: Vec<u8> = Vec::new();
    for i in 0..n
        invariant
            n <= buf@.len(),
            chunk@ == buf@.subrange(0, i as int),
    {
        chunk.push(buf[i]);
    }
    chunk
}

} // verus!
