//! Decisions of the application's startup: the pacing and logging of the
//! port probe, and the reading of the test-harness settings
//! (`device:baud` specs and counts).

use vstd::prelude::*;
use crate::serial::config::{default_config, PortConfig};
use crate::serial::{DataBits, FlowControl, Parity, StopBits};
use crate::text::{
    decimal, is_digit, lemma_decimal_parses_back, lemma_split_in_two_parts, parse_decimal,
    parse_unsigned, split_in_two, split_once_only,
};

verus! {

/// Number of probe rounds run at the fast pace: 600 rounds of 2 seconds,
/// about 20 minutes, so that short USB hot-plug events are caught.
pub const PROBE_FAST_ROUNDS: u64 = 600;

/// Seconds to wait after probe round `round` (counted from 1): 2 seconds
/// after each of rounds 1 through 600 (about 20 minutes), then 60 seconds.
pub open spec fn probe_pause(round: u64) -> u64 {
    if round <= PROBE_FAST_ROUNDS {
        2
    } else {
        60
    }
}

/// Whether probe round `round` is logged: the first three rounds and every
/// thirtieth.
pub open spec fn probe_logged(round: u64) -> bool {
    round <= 3 || round % 30 == 0
}

/// Seconds spent pausing over the first `rounds` probe rounds.
pub open spec fn probe_elapsed(rounds: nat) -> nat
    decreases rounds,
{
    if rounds == 0 {
        0
    } else {
        probe_elapsed((rounds - 1) as nat) + probe_pause(rounds as u64) as nat
    }
}

/// The probe runs at its fast pace for its first rounds, 2 seconds per
/// round, so that the first `k` of them (`k` up to 600) take `2 * k`
/// seconds: 1200 seconds, 20 minutes, for the whole fast phase. The pause
/// never shrinks from one round to a later one.
pub proof fn lemma_probe_fast_phase(k: nat, r1: u64, r2: u64)
    requires
        k <= PROBE_FAST_ROUNDS,
    ensures
        probe_elapsed(k) == 2 * k,
        probe_elapsed(PROBE_FAST_ROUNDS as nat) == 1200,
        r1 <= r2 ==> probe_pause(r1) <= probe_pause(r2),
{
    lemma_probe_elapsed_linear(k);
    lemma_probe_elapsed_linear(PROBE_FAST_ROUNDS as nat);
}

proof fn lemma_probe_elapsed_linear(k: nat)
    requires
        k <= PROBE_FAST_ROUNDS,
    ensures
        probe_elapsed(k) == 2 * k,
    decreases k,
{
    if k > 0 {
        lemma_probe_elapsed_linear((k - 1) as nat);
    }
}

/// The pause after a probe round, in seconds.
pub fn probe_backoff_secs(round: u64) -> (secs: u64)
    ensures
        secs == probe_pause(round),
{
    if round <= PROBE_FAST_ROUNDS {
        2
    } else {
        60
    }
}

/// Whether a probe round is logged.
pub fn probe_should_log(round: u64) -> (b: bool)
    ensures
        b == probe_logged(round),
{
    round <= 3 || round % 30 == 0
}

/// Baud rate used when a harness spec names none that can be read.
pub const HARNESS_DEFAULT_BAUD: u32 = 115200;

/// The baud rate a harness spec's second part stands for.
pub open spec fn spec_baud(text: Seq<char>) -> u32 {
    match parse_unsigned(text, u32::MAX as nat) {
        Some(v) => v as u32,
        None => HARNESS_DEFAULT_BAUD,
    }
}

/// The baud part of a harness spec is read as the decimal `u32` it spells
/// whenever it spells one; only text that is no such number falls back to
/// 115200.
pub proof fn lemma_spec_baud_reads_number(text: Seq<char>)
    ensures
        parse_unsigned(text, u32::MAX as nat) matches Some(v) ==> spec_baud(text) as nat == v,
        spec_baud(text) != HARNESS_DEFAULT_BAUD ==> parse_unsigned(text, u32::MAX as nat) is Some,
{
}

/// A spec written as a device name without `:`, one `:` and a baud rate in
/// decimal reads back as that device name and that baud rate.
pub proof fn lemma_device_spec_round_trip(dev: Seq<char>, baud: u32)
    requires
        forall|i: int| 0 <= i < dev.len() ==> dev[i] != ':',
    ensures
        split_in_two(dev + seq![':'] + decimal(baud as nat), ':') == Some((dev, decimal(baud as nat))),
        spec_baud(decimal(baud as nat)) == baud,
{
    let t = decimal(baud as nat);
    lemma_decimal_parses_back(baud as nat, u32::MAX as nat);
    assert forall|i: int| 0 <= i < t.len() implies t[i] != ':' by {
        assert(is_digit(t[i]));
    }
    lemma_split_in_two_parts(t, ':', dev, t);
}

/// Reads a `device:baud` harness spec: it must hold exactly one `:`; the
/// baud rate falls back to 115200 when it cannot be read.
pub fn parse_device_spec(spec: &str) -> (r: Option<(String, u32)>)
    ensures
        match split_in_two(spec@, ':') {
            Some((dev, baud)) => r matches Some((d, b)) && d@ == dev && b == spec_baud(baud),
            None => r is None,
        },
{
    match split_once_only(spec, ':') {
        Some((dev, baud_text)) => {
            let baud = match parse_decimal(baud_text, u32::MAX as u64) {
                Some(v) => v as u32,
                None => HARNESS_DEFAULT_BAUD,
            };
            Some((dev.to_owned(), baud))
        },
        None => None,
    }
}

/// Reads a count setting, falling back to `default` when it cannot be read.
pub fn parse_count(text: &str, default: usize) -> (n: usize)
    ensures
        n == match parse_unsigned(text@, usize::MAX as nat) {
            Some(v) => v as usize,
            None => default,
        },
{
    match parse_decimal(text, usize::MAX as u64) {
        Some(v) => v as usize,
        None => default,
    }
}

/// The configuration the harnesses open ports with: the default settings
/// at the given baud rate.
pub fn harness_config(baud: u32) -> (cfg: PortConfig)
    ensures
        cfg == (PortConfig { baud_rate: baud, ..default_config() }),
{
    PortConfig {
        baud_rate: baud,
        data_bits: DataBits::Eight,
        stop_bits: StopBits::One,
        parity: Parity::Off,
        flow_control: FlowControl::Off,
        read_timeout_ms: 50,
    }
}

} // verus!
