//! The values exchanged with the user interface, the session status, the
//! clock, and the batching of received data before it is pushed to the
//! interface.

use vstd::prelude::*;
use std::time::{Duration, SystemTime, SystemTimeError, UNIX_EPOCH};
use crate::serial::{Manager, PortInfo};
use crate::serial::config::duration_millis;

verus! {

/// One chunk of received bytes, stamped with the time it was taken from the
/// reader (UNIX milliseconds).
#[derive(Debug, Clone)]
pub struct SerialChunk {
    pub data: Vec<u8>,
    pub ts_ms: i64,
}

/// The state of the session as the user interface shows it.
#[derive(Debug, Clone)]
pub struct PortStatus {
    pub opened: bool,
    pub port: Option<PortInfo>,
}

/// The status of `manager`: whether a session is open and the description
/// of its port.
pub fn port_status<S>(manager: &Manager<S>) -> (st: PortStatus)
    ensures
        st.opened == manager@ is Some,
        match manager@ {
            Some((_, v)) => st.port matches Some(p) && p@ == v,
            None => st.port is None,
        },
{
    PortStatus { opened: manager.is_open(), port: manager.current_port() }
}

#[verifier::external_type_specification]
#[verifier::external_body]
pub struct ExSystemTime(SystemTime);

#[verifier::external_type_specification]
#[verifier::external_body]
pub struct ExSystemTimeError(SystemTimeError);

/// Trusted: `std::time::SystemTime::now`. It reads the system clock, so
/// nothing is claimed of the instant it returns.
#[verifier::external_body]
fn clock_now() -> SystemTime {
    SystemTime::now()
}

/// What `SystemTime::duration_since(UNIX_EPOCH)` gives for an instant: the
/// time elapsed since the epoch, or an error when the instant lies before it.
pub uninterp spec fn epoch_offset(t: SystemTime) -> Result<Duration, SystemTimeError>;

/// Trusted: `SystemTime::duration_since(UNIX_EPOCH)`, a pure function of the
/// instant; nothing more is claimed of it.
#[verifier::external_body]
fn since_unix_epoch(t: &SystemTime) -> (r: Result<Duration, SystemTimeError>)
    ensures
        r == epoch_offset(*t),
{
    t.duration_since(UNIX_EPOCH)
}

/// Trusted: `Duration::as_millis`, the whole milliseconds of a duration, a
/// pure function of the duration.
#[verifier::external_body]
fn whole_millis(d: &Duration) -> (ms: u128)
    ensures
        ms == duration_millis(*d),
{
    d.as_millis()
}

/// Milliseconds since the UNIX epoch as reported: the count cast to `i64`
/// (wrapping like `as`), or 0 when the clock lies before the epoch.
pub fn epoch_ms(elapsed_ms: Option<u128>) -> (ms: i64)
    ensures
        ms == match elapsed_ms {
            Some(m) => m as i64,
            None => 0i64,
        },
{
    match elapsed_ms {
        Some(m) => m as i64,
        None => 0,
    }
}

/// The milliseconds reported for the clock instant `t`: the whole
/// milliseconds elapsed since the UNIX epoch cast to `i64` (wrapping like
/// `as`), or 0 when `t` lies before the epoch.
pub open spec fn reported_ms(t: SystemTime) -> i64 {
    match epoch_offset(t) {
        Ok(d) => duration_millis(d) as i64,
        Err(_) => 0i64,
    }
}

/// The current time in UNIX milliseconds: what [`reported_ms`] gives for
/// the instant read from the system clock.
pub fn now_ms() -> (ms: i64)
    ensures
        exists|t: SystemTime| ms == #[trigger] reported_ms(t),
{
    let t = clock_now();
    let elapsed = match since_unix_epoch(&t) {
        Ok(d) => Some(whole_millis(&d)),
        Err(_) => None,
    };
    let ms = epoch_ms(elapsed);
    assert(ms == reported_ms(t));
    ms
}

/// Pause of the pump between two drains of the reader, in milliseconds.
pub const PUMP_TICK_MS: u64 = 5;

/// Largest number of chunks pushed to the interface in one event.
pub const PUMP_BATCH_LIMIT: usize = 256;

/// The chunks drained from the reader in one tick of the pump, in the order
/// they were received; never more than [`PUMP_BATCH_LIMIT`].
pub struct PumpBatch {
    chunks: Vec<SerialChunk>,
}

impl View for PumpBatch {
    type V = Seq<SerialChunk>;

    closed spec fn view(&self) -> Seq<SerialChunk> {
        self.chunks@
    }
}

impl PumpBatch {
    #[verifier::type_invariant]
    closed spec fn within_limit(self) -> bool {
        self.chunks@.len() <= PUMP_BATCH_LIMIT
    }

    /// An empty batch.
    pub fn new() -> (b: Self)
        ensures
            b@ == Seq::<SerialChunk>::empty(),
    {
        PumpBatch { chunks: Vec::new() }
    }

    /// Whether the batch can take another chunk; the pump stops draining the
    /// reader once it cannot.
    pub fn has_room(&self) -> (r: bool)
        ensures
            r == (self@.len() < PUMP_BATCH_LIMIT),
    {
        self.chunks.len() < PUMP_BATCH_LIMIT
    }

    /// Appends a chunk received at `ts_ms`.
    pub fn push(&mut self, data: Vec<u8>, ts_ms: i64)
        requires
            old(self)@.len() < PUMP_BATCH_LIMIT,
        ensures
            final(self)@ == old(self)@.push(SerialChunk { data: data, ts_ms: ts_ms }),
    {
        proof {
            use_type_invariant(&*self);
        }
        let mut chunks: Vec<SerialChunk> = Vec::new();
        std::mem::swap(&mut chunks, &mut self.chunks);
        chunks.push(SerialChunk { data, ts_ms });
        self.chunks = chunks;
    }

    /// Whether the batch is pushed to the interface: only a non-empty batch is.
    pub fn ready(&self) -> (r: bool)
        ensures
            r == (self@.len() > 0),
    {
        self.chunks.len() > 0
    }

    /// The chunks of the batch, in order.
    pub fn into_chunks(self) -> (v: Vec<SerialChunk>)
        ensures
            v@ == self@,
            v@.len() <= PUMP_BATCH_LIMIT,
    {
        proof {
            use_type_invariant(&self);
        }
        self.chunks
    }
}

} // verus!
