//! Port configuration and its validation.

use vstd::prelude::*;
use std::time::Duration;
use crate::text::{decimal, decimal_string, lemma_decimal_parses_back, parse_unsigned};

verus! {

/// Parity checking mode.
#[derive(Debug, Clone, Copy, PartialEq, Eq, Structural)]
pub enum Parity {
    /// No parity bit.
    Off,
    Odd,
    Even,
}

/// Flow control mode.
#[derive(Debug, Clone, Copy, PartialEq, Eq, Structural)]
pub enum FlowControl {
    /// No flow control.
    Off,
    /// XON/XOFF.
    Software,
    /// RTS/CTS.
    Hardware,
}

/// Number of data bits per character (5 to 8).
#[derive(Debug, Clone, Copy, PartialEq, Eq, Structural)]
pub enum DataBits {
    Five,
    Six,
    Seven,
    Eight,
}

/// Number of stop bits (1 or 2).
#[derive(Debug, Clone, Copy, PartialEq, Eq, Structural)]
pub enum StopBits {
    One,
    Two,
}

/// Settings of a serial port.
#[derive(Debug, Clone, Copy)]
pub struct PortConfig {
    /// Baud rate; only the rates of [`supported_baud_rate`] are accepted.
    pub baud_rate: u32,
    pub data_bits: DataBits,
    pub stop_bits: StopBits,
    pub parity: Parity,
    pub flow_control: FlowControl,
    /// Timeout of a single blocking read, in milliseconds; it paces the
    /// background reader.
    pub read_timeout_ms: u64,
}

/// The baud rates a configuration may use: those of nearly every UART and
/// common USB-serial adapters.
pub open spec fn supported_baud_rate(b: u32) -> bool {
    b == 110 || b == 300 || b == 600 || b == 1200 || b == 2400 || b == 4800 || b == 9600
        || b == 14400 || b == 19200 || b == 38400 || b == 57600 || b == 115200 || b == 128000
        || b == 230400 || b == 256000 || b == 460800 || b == 500000 || b == 576000
        || b == 921600 || b == 1000000 || b == 1152000 || b == 1500000 || b == 2000000
        || b == 2500000 || b == 3000000 || b == 3500000 || b == 4000000
}

/// Why a configuration is rejected, as the message that [`PortConfig::validate`]
/// returns; `None` when it is accepted. The baud rate is checked first.
pub open spec fn config_problem(cfg: PortConfig) -> Option<Seq<char>> {
    if !supported_baud_rate(cfg.baud_rate) {
        Some("unsupported baud_rate: "@ + decimal(cfg.baud_rate as nat))
    } else if cfg.read_timeout_ms == 0 {
        Some("read_timeout_ms must be > 0"@)
    } else {
        None
    }
}

/// The default settings: 9600 baud, 8 data bits, 1 stop bit, no parity,
/// no flow control, 50 ms read timeout.
pub open spec fn default_config() -> PortConfig {
    PortConfig {
        baud_rate: 9600,
        data_bits: DataBits::Eight,
        stop_bits: StopBits::One,
        parity: Parity::Off,
        flow_control: FlowControl::Off,
        read_timeout_ms: 50,
    }
}

/// What `Duration::from_millis` builds from a number of milliseconds.
pub uninterp spec fn millis_duration(ms: u64) -> Duration;

/// The whole milliseconds of a duration, as `Duration::as_millis` reports them.
pub uninterp spec fn duration_millis(d: Duration) -> u128;

/// Trusted: `std::time::Duration::from_millis`, a pure function of its
/// argument; the duration it builds is `ms` whole milliseconds long (as its
/// documentation states, `as_millis` gives `ms` back).
#[verifier::external_body]
fn duration_from_millis(ms: u64) -> (d: Duration)
    ensures
        d == millis_duration(ms),
        duration_millis(d) == ms as u128,
{
    Duration::from_millis(ms)
}

fn is_supported_baud_rate(b: u32) -> (r: bool)
    ensures
        r == supported_baud_rate(b),
{
    b == 110 || b == 300 || b == 600 || b == 1200 || b == 2400 || b == 4800 || b == 9600
        || b == 14400 || b == 19200 || b == 38400 || b == 57600 || b == 115200 || b == 128000
        || b == 230400 || b == 256000 || b == 460800 || b == 500000 || b == 576000
        || b == 921600 || b == 1000000 || b == 1152000 || b == 1500000 || b == 2000000
        || b == 2500000 || b == 3000000 || b == 3500000 || b == 4000000
}

impl Default for PortConfig {
    fn default() -> (cfg: Self)
        ensures
            cfg == default_config(),
    {
        PortConfig {
            baud_rate: 9600,
            data_bits: DataBits::Eight,
            stop_bits: StopBits::One,
            parity: Parity::Off,
            flow_control: FlowControl::Off,
            read_timeout_ms: 50,
        }
    }
}

impl PortConfig {
    /// Checks the configuration: the baud rate must be one of the supported
    /// rates and the read timeout must be positive. The error is a message
    /// for people.
    pub fn validate(&self) -> (r: Result<(), String>)
        ensures
            r is Ok <==> config_problem(*self) is None,
            r matches Err(m) ==> config_problem(*self) == Some(m@),
    {
        if !is_supported_baud_rate(self.baud_rate) {
            let mut m = String::from_str("unsupported baud_rate: ");
            let n = decimal_string(self.baud_rate as u64);
            m.append(n.as_str());
            return Err(m);
        }
        if self.read_timeout_ms == 0 {
            return Err(String::from_str("read_timeout_ms must be > 0"));
        }
        Ok(())
    }

    /// The read timeout as a `Duration`.
    pub fn timeout(&self) -> (d: Duration)
        ensures
            d == millis_duration(self.read_timeout_ms),
            duration_millis(d) == self.read_timeout_ms as u128,
    {
        duration_from_millis(self.read_timeout_ms)
    }
}

/// The default configuration passes validation.
pub proof fn lemma_default_config_is_valid()
    ensures
        config_problem(default_config()) is None,
{
}

/// For a supported baud rate, a configuration is accepted exactly when its
/// read timeout is positive: every positive timeout is valid, and a zero
/// timeout is refused with "read_timeout_ms must be > 0". An unsupported
/// baud rate is refused whatever the timeout.
pub proof fn lemma_valid_iff_positive_timeout(cfg: PortConfig)
    ensures
        supported_baud_rate(cfg.baud_rate) ==> (config_problem(cfg) is None <==> cfg.read_timeout_ms > 0),
        supported_baud_rate(cfg.baud_rate) && cfg.read_timeout_ms == 0 ==> config_problem(cfg) == Some(
            "read_timeout_ms must be > 0"@,
        ),
        !supported_baud_rate(cfg.baud_rate) ==> config_problem(cfg) is Some,
{
}

/// A configuration with an unsupported baud rate is refused whatever its
/// other settings, with a message that names the rate: after the text
/// "unsupported baud_rate: " it reads back as that rate.
pub proof fn lemma_unsupported_rate_message(cfg: PortConfig)
    requires
        !supported_baud_rate(cfg.baud_rate),
    ensures
        config_problem(cfg) matches Some(m) && m.take(23) == "unsupported baud_rate: "@ && parse_unsigned(
            m.skip(23),
            u32::MAX as nat,
        ) == Some(cfg.baud_rate as nat),
{
    reveal_strlit("unsupported baud_rate: ");
    lemma_decimal_parses_back(cfg.baud_rate as nat, u32::MAX as nat);
    let m = "unsupported baud_rate: "@ + decimal(cfg.baud_rate as nat);
    assert(m.take(23) =~= "unsupported baud_rate: "@);
    assert(m.skip(23) =~= decimal(cfg.baud_rate as nat));
}

} // verus!
