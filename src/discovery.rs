//! Port discovery: the distinct destination ports of the UDP datagrams in a
//! sequence of frames.

use crate::frame::{extract_udp_info, port_of};
use vstd::prelude::*;

verus! {

/// The bytes of each frame of a capture.
pub open spec fn frame_views(frames: Seq<Vec<u8>>) -> Seq<Seq<u8>> {
    frames.map_values(|f: Vec<u8>| f@)
}

/// The destination ports that the UDP datagrams among `frames` are sent to.
pub open spec fn ports_of(frames: Seq<Seq<u8>>) -> Set<u16> {
    Set::new(|p: u16| exists|i: int| 0 <= i < frames.len() && port_of(#[trigger] frames[i]) == Some(p))
}

/// `ports_of` grows by the port of each frame appended.
proof fn lemma_ports_of_push(frames: Seq<Seq<u8>>, f: Seq<u8>)
    ensures
        ports_of(frames.push(f)) == match port_of(f) {
            Some(p) => ports_of(frames).insert(p),
            None => ports_of(frames),
        },
{
    let fs = frames.push(f);
    assert(fs[fs.len() - 1] == f);
    assert forall|i: int| 0 <= i < frames.len() implies fs[i] == frames[i] by {}
    match port_of(f) {
        Some(q) => {
            assert(ports_of(fs) =~= ports_of(frames).insert(q));
        },
        None => {
            assert(ports_of(fs) =~= ports_of(frames));
        },
    }
}

/// A set of distinct destination ports, kept as a list without repeats.
pub struct PortSet {
    ports: Vec<u16>,
}

impl View for PortSet {
    type V = Set<u16>;

    open spec fn view(&self) -> Set<u16> {
        self.list().to_set()
    }
}

impl PortSet {
    /// The ports in the order they were first seen.
    pub closed spec fn list(&self) -> Seq<u16> {
        self.ports@
    }

    /// No port is listed twice.
    pub open spec fn wf(&self) -> bool {
        self.list().no_duplicates()
    }

    /// An empty set of ports.
    pub fn new() -> (r: PortSet)
        ensures
            r.wf(),
            r@ == Set::<u16>::empty(),
            r.list() == Seq::<u16>::empty(),
    {
        let r = PortSet { ports: Vec::new() };
        assert(r@ =~= Set::<u16>::empty());
        r
    }

    /// Whether `port` is in the set.
    pub fn contains(&self, port: u16) -> (r: bool)
        ensures
            r == self@.contains(port),
    {
        let mut i: usize = 0;
        while i < self.ports.len()
            invariant
                0 <= i <= self.ports@.len(),
                forall|j: int| 0 <= j < i ==> self.ports@[j] != port,
            decreases self.ports@.len() - i,
        {
            if self.ports[i] == port {
                assert(self.list()[i as int] == port);
                return true;
            }
            i = i + 1;
        }
        proof {
            if self@.contains(port) {
                let k = choose|k: int| 0 <= k < self.list().len() && self.list()[k] == port;
                assert(self.ports@[k] == port);
            }
        }
        false
    }

    /// Adds `port`; a port already present leaves the set as it was.
    pub fn insert(&mut self, port: u16)
        requires
            old(self).wf(),
        ensures
            final(self).wf(),
            final(self)@ == old(self)@.insert(port),
            final(self)@.len() == old(self)@.len() + if old(self)@.contains(port) { 0int } else { 1int },
    {
        proof {
            self.list().unique_seq_to_set();
        }
        if !self.contains(port) {
            self.ports.push(port);
            proof {
                let old_list = old(self).list();
                assert(self.list() == old_list.push(port));
                assert(self.list().no_duplicates()) by {
                    assert forall|a: int, b: int|
                        0 <= a < b < self.list().len() implies self.list()[a] != self.list()[b] by {
                        if b == old_list.len() {
                            assert(old_list.contains(old_list[a]));
                        }
                    }
                }
                old_list.lemma_push_to_set_commute(port);
                self.list().unique_seq_to_set();
            }
        } else {
            proof {
                assert(self@.contains(port));
                assert(self@ == old(self)@);
                assert(self@ =~= old(self)@.insert(port));
            }
        }
    }

    /// Feeds one frame to the discovery: the port of a UDP frame joins the
    /// set; any other frame is skipped.
    pub fn observe(&mut self, frame: &[u8])
        requires
            old(self).wf(),
        ensures
            final(self).wf(),
            final(self)@ == match port_of(frame@) {
                Some(p) => old(self)@.insert(p),
                None => old(self)@,
            },
    {
        match extract_udp_info(frame) {
            Some((port, _)) => self.insert(port),
            None => {},
        }
    }

    /// The number of distinct ports.
    pub fn len(&self) -> (r: usize)
        requires
            self.wf(),
        ensures
            r == self@.len(),
    {
        proof {
            self.list().unique_seq_to_set();
        }
        self.ports.len()
    }

    /// The ports, each once, in the order they were first seen.
    pub fn to_vec(&self) -> (r: Vec<u16>)
        ensures
            r@ == self.list(),
            r@.to_set() == self@,
    {
        self.ports.clone()
    }
}

/// Port discovery pass: visits every frame once and collects the destination
/// ports of the UDP datagrams among them. Frames that do not decode are
/// skipped.
pub fn discover_ports(frames: &[Vec<u8>]) -> (r: PortSet)
    ensures
        r.wf(),
        r@ == ports_of(frame_views(frames@)),
{
    let mut set = PortSet::new();
    let mut i: usize = 0;
    while i < frames.len()
        invariant
            0 <= i <= frames@.len(),
            set.wf(),
            set@ == ports_of(frame_views(frames@).take(i as int)),
        decreases frames@.len() - i,
    {
        let ghost before = frame_views(frames@).take(i as int);
        set.observe(frames[i].as_slice());
        proof {
            lemma_ports_of_push(before, frames@[i as int]@);
            assert(frame_views(frames@).take(i + 1) =~= before.push(frames@[i as int]@));
        }
        i = i + 1;
    }
    proof {
        assert(frame_views(frames@).take(i as int) =~= frame_views(frames@));
    }
    set
}

} // verus!
