//! Serial-port layer: configuration, errors, port descriptions and the
//! single-session manager.
//!
//! Only one session is open at a time: a new port can be opened only after
//! the current session has been closed.

pub mod config;
pub mod error;
pub mod session;

pub use config::{DataBits, FlowControl, Parity, PortConfig, StopBits};
pub use error::{IoErrorKind, IoFailure, SerialError, SerialPortErrorKind, SerialPortFailure};
pub use session::{list_ports, PortInfo, SerialPortInfo, SerialPortType, UsbPortInfo};

use vstd::prelude::*;
use crate::serial::config::config_problem;
use crate::serial::error::SerialErrorView;
use crate::serial::session::{opened_view, PortInfoView};

verus! {

/// The session slot: empty, or one open session `S` with the description of
/// its port. `S` is the handle of the open device, which the caller owns the
/// I/O of.
pub struct Manager<S> {
    slot: Option<(S, PortInfo)>,
}

impl<S> View for Manager<S> {
    type V = Option<(S, PortInfoView)>;

    closed spec fn view(&self) -> Option<(S, PortInfoView)> {
        match self.slot {
            Some((s, p)) => Some((s, p@)),
            None => None,
        }
    }
}

/// Why a request to open `name` with `cfg` is refused, given whether a
/// session is already open; `None` when the port may be opened. The
/// configuration is checked before the slot.
pub open spec fn open_refusal(session_open: bool, name: Seq<char>, cfg: PortConfig) -> Option<SerialErrorView> {
    match config_problem(cfg) {
        Some(m) => Some(SerialErrorView::InvalidConfig(m)),
        None => if session_open {
            Some(SerialErrorView::PortBusy(name))
        } else {
            None
        },
    }
}

/// The slot once a session with handle `s` has been opened on `name`.
pub open spec fn opened_slot<S>(s: S, name: Seq<char>) -> Option<(S, PortInfoView)> {
    Some((s, opened_view(name)))
}

impl<S> Manager<S> {
    /// A manager with no open session.
    pub fn new() -> (m: Self)
        ensures
            m@ is None,
    {
        Manager { slot: None }
    }

    /// Decides whether `name` may be opened with `cfg` now: the configuration
    /// must be valid and no session may be open. Nothing changes.
    pub fn check_open(&self, name: &str, cfg: &PortConfig) -> (r: Result<(), SerialError>)
        ensures
            match open_refusal(self@ is Some, name@, *cfg) {
                Some(v) => r matches Err(e) && e@ == v,
                None => r is Ok,
            },
    {
        match cfg.validate() {
            Err(m) => Err(SerialError::InvalidConfig(m)),
            Ok(()) => if self.slot.is_some() {
                Err(SerialError::PortBusy(name.to_owned()))
            } else {
                Ok(())
            },
        }
    }

    /// Opens `name` with `cfg` when the slot allows it. An invalid
    /// configuration is refused with its validation message, then an
    /// occupied slot is refused as busy; in both cases `device` is not called
    /// and the slot is left as it was. Otherwise `device` opens the port: on
    /// success its session takes the slot and the description of its port is
    /// returned; on failure the slot stays empty and the failure is returned.
    pub fn open<F>(&mut self, name: &str, cfg: &PortConfig, device: F) -> (r: Result<PortInfo, SerialError>)
        where
            F: FnOnce() -> Result<S, SerialError>,
        requires
            open_refusal(old(self)@ is Some, name@, *cfg) is None ==> device.requires(()),
        ensures
            match open_refusal(old(self)@ is Some, name@, *cfg) {
                Some(v) => final(self)@ == old(self)@ && (r matches Err(e) && e@ == v),
                None => match r {
                    Ok(p) => p@ == opened_view(name@) && (final(self)@ matches Some((s, v)) && v
                        == opened_view(name@) && device.ensures((), Ok::<S, SerialError>(s))),
                    Err(e) => final(self)@ is None && device.ensures((), Err::<S, SerialError>(e)),
                },
            },
    {
        match self.check_open(name, cfg) {
            Err(e) => Err(e),
            Ok(()) => match device() {
                Ok(s) => {
                    let info = PortInfo::opened(name);
                    let shown = info.clone();
                    self.slot = Some((s, info));
                    Ok(shown)
                },
                Err(e) => Err(e),
            },
        }
    }

    /// Closes the current session, releasing its handle; `NotOpened` when no
    /// session is open.
    pub fn close(&mut self) -> (r: Result<(), SerialError>)
        ensures
            final(self)@ is None,
            old(self)@ is Some ==> r is Ok,
            old(self)@ is None ==> (r matches Err(e) && e@ == SerialErrorView::NotOpened),
    {
        match self.slot.take() {
            Some(_) => Ok(()),
            None => Err(SerialError::NotOpened),
        }
    }

    /// The handle of the open session, for writing to or receiving from it;
    /// `NotOpened` when no session is open.
    pub fn session(&self) -> (r: Result<&S, SerialError>)
        ensures
            match self@ {
                Some((s, _)) => r matches Ok(h) && *h == s,
                None => r matches Err(e) && e@ == SerialErrorView::NotOpened,
            },
    {
        match &self.slot {
            Some((s, _)) => Ok(s),
            None => Err(SerialError::NotOpened),
        }
    }

    /// Whether a session is open.
    pub fn is_open(&self) -> (b: bool)
        ensures
            b == self@ is Some,
    {
        self.slot.is_some()
    }

    /// The description of the open session's port, if any.
    pub fn current_port(&self) -> (p: Option<PortInfo>)
        ensures
            match self@ {
                Some((_, v)) => p matches Some(q) && q@ == v,
                None => p is None,
            },
    {
        match &self.slot {
            Some((_, info)) => Some(info.clone()),
            None => None,
        }
    }
}

impl<S> Default for Manager<S> {
    fn default() -> (m: Self)
        ensures
            m@ is None,
    {
        Manager::new()
    }
}

/// With no session open, a request with a valid configuration is allowed,
/// and an invalid configuration is refused with its validation message
/// whether or not a session is open.
pub proof fn lemma_open_allowed_iff_valid_and_closed(session_open: bool, name: Seq<char>, cfg: PortConfig)
    ensures
        open_refusal(session_open, name, cfg) is None <==> (config_problem(cfg) is None && !session_open),
        config_problem(cfg) matches Some(m) ==> open_refusal(session_open, name, cfg) == Some(
            SerialErrorView::InvalidConfig(m),
        ),
{
}

/// Once a session is open on `name`, the slot describes that port by its
/// name (kind "unknown"), and every further request to open a port with a
/// valid configuration is refused as busy until the session is closed.
pub proof fn lemma_open_occupies_slot<S>(s: S, name: Seq<char>, other: Seq<char>, cfg: PortConfig)
    requires
        config_problem(cfg) is None,
    ensures
        opened_slot(s, name) matches Some((h, v)) && h == s && v == opened_view(name),
        open_refusal(opened_slot(s, name) is Some, other, cfg) == Some(SerialErrorView::PortBusy(other)),
{
}

} // verus!
