//! Replay engine: per frame, where its datagram goes; per successful send,
//! the running count, when to report progress and how long to pause.
//!
//! The caller performs the sends and the pauses and hands each outcome back.

use crate::frame::{decoded, extract_udp_info};
use crate::pool::SocketPool;
use vstd::prelude::*;

verus! {

/// Microseconds in one second.
pub const MICROS_PER_SECOND: u64 = 1_000_000;

/// A progress report is due after every this many successful sends.
pub const PROGRESS_INTERVAL: u64 = 1000;

/// The datagram that a frame sends during replay, given the ports that have a
/// socket: its port and payload where the frame carries UDP to such a port.
pub open spec fn routed(ports: Set<u16>, frame: Seq<u8>) -> Option<(u16, Seq<u8>)> {
    match decoded(frame) {
        Some((port, payload)) => if ports.contains(port) {
            Some((port, payload))
        } else {
            None
        },
        None => None,
    }
}

/// The number of datagrams that a replay of `frames` sends, given the ports
/// that have a socket.
pub open spec fn sends_of(ports: Set<u16>, frames: Seq<Seq<u8>>) -> nat
    decreases frames.len(),
{
    if frames.len() == 0 {
        0
    } else {
        sends_of(ports, frames.drop_last()) + if routed(ports, frames.last()) is Some {
            1nat
        } else {
            0nat
        }
    }
}

/// The pause after each successful send at `rate_pps` packets per second.
pub open spec fn interval_of(rate_pps: u32) -> int {
    MICROS_PER_SECOND as int / rate_pps as int
}

/// The pause after each successful send, in microseconds:
/// one second divided by the rate, rounded down.
pub fn send_interval_us(rate_pps: u32) -> (r: u64)
    requires
        rate_pps > 0,
    ensures
        r == interval_of(rate_pps),
{
    MICROS_PER_SECOND / (rate_pps as u64)
}

/// Looks up where a frame's datagram goes: its destination port, its payload
/// (a view into the frame, unmodified) and the pool's socket for that port.
/// `None` for a frame that carries no UDP, or whose port has no socket: such
/// a frame is dropped without error.
pub fn route<'a, 'b, S>(pool: &'b SocketPool<S>, frame: &'a [u8]) -> (r: Option<
    (u16, &'a [u8], &'b S),
>)
    requires
        pool.wf(),
    ensures
        r is Some <==> routed(pool.ports(), frame@) is Some,
        match r {
            Some((port, payload, socket)) => {
                &&& routed(pool.ports(), frame@) == Some((port, payload@))
                &&& pool.has_entry(port, *socket)
            },
            None => true,
        },
{
    match extract_udp_info(frame) {
        Some((port, payload)) => match pool.socket_for(port) {
            Some(socket) => Some((port, payload, socket)),
            None => None,
        },
        None => None,
    }
}

/// The replay pass's state: the rate it paces to and the count of datagrams
/// sent so far.
pub struct Replay {
    rate_pps: u32,
    interval_us: u64,
    sent: u64,
}

impl Replay {
    /// The rate in packets per second.
    pub closed spec fn rate(&self) -> u32 {
        self.rate_pps
    }

    /// The pause after each send, in microseconds.
    pub closed spec fn interval(&self) -> u64 {
        self.interval_us
    }

    /// The number of successful sends so far.
    pub closed spec fn count(&self) -> u64 {
        self.sent
    }

    /// The rate is positive and the pause derives from it.
    pub open spec fn wf(&self) -> bool {
        &&& self.rate() > 0
        &&& self.interval() == interval_of(self.rate())
    }

    /// The total of the pauses taken after the sends so far, in microseconds.
    pub open spec fn paced_us(&self) -> int {
        self.count() * self.interval()
    }

    /// A replay at `rate_pps` packets per second that has sent nothing yet.
    pub fn new(rate_pps: u32) -> (r: Replay)
        requires
            rate_pps > 0,
        ensures
            r.wf(),
            r.rate() == rate_pps,
            r.count() == 0,
    {
        Replay { rate_pps, interval_us: send_interval_us(rate_pps), sent: 0 }
    }

    /// The number of successful sends so far.
    pub fn sent_count(&self) -> (r: u64)
        ensures
            r == self.count(),
    {
        self.sent
    }

    /// The pause to take after each successful send, in microseconds.
    pub fn pause_us(&self) -> (r: u64)
        ensures
            r == self.interval(),
    {
        self.interval_us
    }

    /// Records one successful send. Returns whether a progress report with
    /// the new count is due: after every `PROGRESS_INTERVAL`-th send.
    pub fn record_send(&mut self) -> (report: bool)
        requires
            old(self).count() < u64::MAX,
        ensures
            final(self).rate() == old(self).rate(),
            final(self).interval() == old(self).interval(),
            final(self).count() == old(self).count() + 1,
            report == (final(self).count() % PROGRESS_INTERVAL == 0),
    {
        self.sent = self.sent + 1;
        self.sent % PROGRESS_INTERVAL == 0
    }
}

} // verus!
