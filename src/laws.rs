//! Properties that relate the discovery, the pool and the replay.

use crate::discovery::{ports_of, PortSet};
use crate::frame::{decoded, port_of};
use crate::pool::SocketPool;
use crate::replay::{interval_of, routed, sends_of, Replay};
use vstd::prelude::*;

verus! {

/// Discovery is idempotent: passing over the same frames a second time, after
/// a first pass, finds no port that the first pass did not.
pub proof fn discovery_is_idempotent(frames: Seq<Seq<u8>>)
    ensures
        ports_of(frames + frames) == ports_of(frames),
{
    let twice = frames + frames;
    assert forall|p: u16| #[trigger] ports_of(twice).contains(p) implies ports_of(frames).contains(p) by {
        let i = choose|i: int| 0 <= i < twice.len() && port_of(#[trigger] twice[i]) == Some(p);
        if i < frames.len() {
            assert(twice[i] == frames[i]);
        } else {
            assert(twice[i] == frames[i - frames.len()]);
        }
    }
    assert forall|p: u16| #[trigger] ports_of(frames).contains(p) implies ports_of(twice).contains(p) by {
        let i = choose|i: int| 0 <= i < frames.len() && port_of(#[trigger] frames[i]) == Some(p);
        assert(twice[i] == frames[i]);
    }
    assert(ports_of(twice) =~= ports_of(frames));
}

/// Pool completeness: a well-formed pool built for a port set holds exactly
/// one socket for each port of the set and none for any other port.
pub proof fn pool_is_complete<S>(ports: PortSet, pool: SocketPool<S>)
    requires
        pool.wf(),
        pool.ports() == ports@,
    ensures
        forall|p: u16| ports@.contains(p) ==> exists|i: int|
            0 <= i < pool.keys().len() && #[trigger] pool.keys()[i] == p && forall|j: int|
                0 <= j < pool.keys().len() && pool.keys()[j] == p ==> j == i,
        forall|p: u16| !ports@.contains(p) ==> !#[trigger] pool.keys().contains(p),
{
    assert forall|p: u16| ports@.contains(p) implies exists|i: int|
        0 <= i < pool.keys().len() && #[trigger] pool.keys()[i] == p && forall|j: int|
            0 <= j < pool.keys().len() && pool.keys()[j] == p ==> j == i by {
        assert(pool.keys().to_set().contains(p));
        let i = choose|i: int| 0 <= i < pool.keys().len() && pool.keys()[i] == p;
        assert(pool.keys()[i] == p);
    }
    assert forall|p: u16| !ports@.contains(p) implies !#[trigger] pool.keys().contains(p) by {
        if pool.keys().contains(p) {
            assert(pool.ports().contains(p));
        }
    }
}

/// Pacing bound: after `K` successful sends at rate `R`, the pauses taken
/// add up to at least `(K - 1) * (1,000,000 / R)` microseconds.
pub proof fn pacing_bound(replay: Replay)
    requires
        replay.wf(),
    ensures
        replay.paced_us() >= (replay.count() - 1) * interval_of(replay.rate()),
{
    let k = replay.count() as int;
    let d = replay.interval() as int;
    assert(k * d >= (k - 1) * d) by (nonlinear_arith)
        requires
            d >= 0,
    ;
}

/// Non-UDP exclusion: frames none of which carries UDP give an empty port
/// set, and their replay sends nothing, whatever ports have sockets.
pub proof fn non_udp_is_excluded(frames: Seq<Seq<u8>>, ports: Set<u16>)
    requires
        forall|i: int| 0 <= i < frames.len() ==> decoded(#[trigger] frames[i]) is None,
    ensures
        ports_of(frames) == Set::<u16>::empty(),
        sends_of(ports, frames) == 0,
    decreases frames.len(),
{
    assert forall|p: u16| !#[trigger] ports_of(frames).contains(p) by {
        if ports_of(frames).contains(p) {
            let i = choose|i: int| 0 <= i < frames.len() && port_of(#[trigger] frames[i]) == Some(p);
            assert(decoded(frames[i]) is None);
        }
    }
    assert(ports_of(frames) =~= Set::<u16>::empty());
    if frames.len() > 0 {
        let rest = frames.drop_last();
        assert forall|i: int| 0 <= i < rest.len() implies decoded(#[trigger] rest[i]) is None by {
            assert(rest[i] == frames[i]);
        }
        non_udp_is_excluded(rest, ports);
        assert(decoded(frames[frames.len() - 1]) is None);
        assert(routed(ports, frames.last()) is None);
    }
}

} // verus!
