//! Socket pool: one outbound socket per discovered destination port.
//!
//! The pool is generic over the socket handle, so that opening sockets stays
//! with the caller while the pairing of ports and sockets is kept here.

use crate::discovery::PortSet;
use vstd::prelude::*;

verus! {

/// A mapping from destination port to the socket that sends to it.
pub struct SocketPool<S> {
    entries: Vec<(u16, S)>,
}

impl<S> SocketPool<S> {
    /// The pool's entries, in the order the ports were given.
    pub closed spec fn entries(&self) -> Seq<(u16, S)> {
        self.entries@
    }

    /// The ports that have a socket, one per entry.
    pub open spec fn keys(&self) -> Seq<u16> {
        self.entries().map_values(|e: (u16, S)| e.0)
    }

    /// The set of ports that have a socket.
    pub open spec fn ports(&self) -> Set<u16> {
        self.keys().to_set()
    }

    /// No port has two sockets.
    pub open spec fn wf(&self) -> bool {
        self.keys().no_duplicates()
    }

    /// `socket` is the pool's socket for `port`.
    pub open spec fn has_entry(&self, port: u16, socket: S) -> bool {
        exists|i: int| 0 <= i < self.entries().len() && #[trigger] self.entries()[i] == (port, socket)
    }

    /// Pairs each port of `ports`, in its listed order, with the socket at the
    /// same position of `sockets`. Returns `None` when there is not exactly one
    /// socket per port.
    pub fn from_sockets(ports: &PortSet, sockets: Vec<S>) -> (r: Option<SocketPool<S>>)
        requires
            ports.wf(),
        ensures
            r is Some <==> sockets@.len() == ports@.len(),
            match r {
                Some(pool) => {
                    &&& pool.wf()
                    &&& pool.ports() == ports@
                    &&& pool.keys() == ports.list()
                    &&& forall|i: int| 0 <= i < sockets@.len() ==>
                        #[trigger] pool.entries()[i] == (ports.list()[i], sockets@[i])
                },
                None => true,
            },
    {
        let list = ports.to_vec();
        proof {
            ports.list().unique_seq_to_set();
        }
        if sockets.len() != list.len() {
            return None;
        }
        let ghost given = sockets@;
        let mut rest = sockets;
        let mut entries: Vec<(u16, S)> = Vec::new();
        let mut i: usize = 0;
        while i < list.len()
            invariant
                0 <= i <= list@.len(),
                list@.len() == given.len(),
                list@ == ports.list(),
                rest@ == given.skip(i as int),
                entries@.len() == i,
                forall|j: int| 0 <= j < i ==> #[trigger] entries@[j] == (list@[j], given[j]),
            decreases list@.len() - i,
        {
            let s = rest.remove(0);
            assert(s == given[i as int]);
            entries.push((list[i], s));
            proof {
                assert(rest@ =~= given.skip(i + 1));
            }
            i = i + 1;
        }
        let pool = SocketPool { entries };
        proof {
            assert(pool.keys() =~= ports.list());
        }
        Some(pool)
    }

    /// The number of sockets in the pool.
    pub fn len(&self) -> (r: usize)
        ensures
            r == self.entries().len(),
    {
        self.entries.len()
    }

    /// The socket for `port`, or `None` where the pool holds none for it.
    pub fn socket_for(&self, port: u16) -> (r: Option<&S>)
        requires
            self.wf(),
        ensures
            r is Some <==> self.ports().contains(port),
            match r {
                Some(s) => self.has_entry(port, *s),
                None => true,
            },
    {
        let mut i: usize = 0;
        while i < self.entries.len()
            invariant
                0 <= i <= self.entries@.len(),
                forall|j: int| 0 <= j < i ==> self.keys()[j] != port,
            decreases self.entries@.len() - i,
        {
            if self.entries[i].0 == port {
                assert(self.keys()[i as int] == port);
                assert(self.entries()[i as int] == (port, self.entries[i as int].1));
                return Some(&self.entries[i].1);
            }
            i = i + 1;
        }
        proof {
            if self.ports().contains(port) {
                let k = choose|k: int| 0 <= k < self.keys().len() && self.keys()[k] == port;
                assert(self.keys()[k] == port);
            }
        }
        None
    }
}

} // verus!
