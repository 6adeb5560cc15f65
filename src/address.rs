//! The socket addresses the broker listens on and connects to, and the order
//! in which listening addresses are tried.
use vstd::prelude::*;

verus! {

/// The address family of a socket.
#[derive(Clone, Copy, Debug, PartialEq, Eq, Structural)]
pub enum Family {
    V6,
    V4,
}

/// Which host address of a family is meant.
#[derive(Clone, Copy, Debug, PartialEq, Eq, Structural)]
pub enum Host {
    /// Every local interface (`::` or `0.0.0.0`).
    Unspecified,
    /// The loopback interface (`::1` or `127.0.0.1`).
    Loopback,
}

/// A host address of a family, with a port.
#[derive(Clone, Copy, Debug, PartialEq, Eq, Structural)]
pub struct Endpoint {
    pub family: Family,
    pub host: Host,
    pub port: u16,
}

/// The number of pending connections a listening socket queues.
pub const LISTEN_BACKLOG: i32 = 128;

/// The addresses to listen on, in the order they are tried: every IPv6
/// interface first, then every IPv4 interface.
pub open spec fn listen_order(port: u16) -> Seq<Endpoint> {
    seq![
        Endpoint { family: Family::V6, host: Host::Unspecified, port },
        Endpoint { family: Family::V4, host: Host::Unspecified, port },
    ]
}

/// The addresses at which a backend listening on `port` is reached: IPv6
/// loopback, then IPv4 loopback.
pub open spec fn backend_order(port: u16) -> Seq<Endpoint> {
    seq![
        Endpoint { family: Family::V6, host: Host::Loopback, port },
        Endpoint { family: Family::V4, host: Host::Loopback, port },
    ]
}

/// The addresses at which a backend listening on `port` is reached, in the
/// order they are tried.
pub fn backend_endpoints(port: u16) -> (r: Vec<Endpoint>)
    ensures
        r@ == backend_order(port),
{
    let r = vec![
        Endpoint { family: Family::V6, host: Host::Loopback, port },
        Endpoint { family: Family::V4, host: Host::Loopback, port },
    ];
    assert(r@ =~= backend_order(port));
    r
}

/// How a listening socket for an endpoint is set up before it is bound.
#[derive(Clone, Copy, Debug, PartialEq, Eq, Structural)]
pub struct BindOptions {
    /// The value to give `IPV6_V6ONLY`; `None` leaves the option alone.
    pub only_v6: Option<bool>,
    /// The length of the queue of pending connections.
    pub backlog: i32,
}

/// The set-up of a listening socket for `e`. An IPv6 socket is made to
/// serve IPv6 alone, so that the two candidates stay independent of the
/// platform's dual-stack default.
pub fn bind_options(e: &Endpoint) -> (r: BindOptions)
    ensures
        r.only_v6 == (if e.family == Family::V6 { Some(true) } else { None::<bool> }),
        r.backlog == LISTEN_BACKLOG,
{
    let only_v6 = match e.family {
        Family::V6 => Some(true),
        Family::V4 => None,
    };
    BindOptions { only_v6, backlog: LISTEN_BACKLOG }
}

/// Whether binding the candidate that was tried last succeeded.
#[derive(Clone, Copy, Debug, PartialEq, Eq, Structural)]
pub enum BindOutcome {
    Bound,
    Failed,
}

/// What to do next while looking for an address to listen on.
#[derive(Clone, Copy, Debug, PartialEq, Eq, Structural)]
pub enum ListenStep {
    /// Try to bind and listen on this address.
    Try(Endpoint),
    /// The broker listens on this address; the search is over.
    Listening(Endpoint),
    /// Every candidate failed: the broker cannot listen.
    Exhausted,
}

/// The walk through the addresses to listen on: each is handed out once, in
/// order, until one has been bound or none is left.
pub struct ListenerSearch {
    candidates: Vec<Endpoint>,
    next: usize,
}

impl ListenerSearch {
    #[verifier::type_invariant]
    spec fn within(self) -> bool {
        self.next <= self.candidates@.len()
    }

    /// The candidates not yet handed out, in order.
    pub closed spec fn remaining(self) -> Seq<Endpoint> {
        self.candidates@.skip(self.next as int)
    }

    /// The candidate handed out last, if any was.
    pub closed spec fn tried(self) -> Option<Endpoint> {
        if self.next == 0 {
            None
        } else {
            Some(self.candidates@[self.next - 1])
        }
    }

    /// A walk over the listening addresses for `port`.
    pub fn new(port: u16) -> (r: ListenerSearch)
        ensures
            r.remaining() == listen_order(port),
            r.tried() is None,
    {
        let candidates = vec![
            Endpoint { family: Family::V6, host: Host::Unspecified, port },
            Endpoint { family: Family::V4, host: Host::Unspecified, port },
        ];
        assert(candidates@.skip(0) =~= listen_order(port));
        ListenerSearch { candidates, next: 0 }
    }

    /// The next address to try after the ones before it failed; `None` once
    /// every candidate has been tried.
    pub fn next_candidate(&mut self) -> (r: Option<Endpoint>)
        ensures
            old(self).remaining().len() == 0 ==> r is None && final(self).remaining() == old(
                self,
            ).remaining() && final(self).tried() == old(self).tried(),
            old(self).remaining().len() > 0 ==> r == Some(old(self).remaining()[0])
                && final(self).remaining() == old(self).remaining().drop_first()
                && final(self).tried() == r,
    {
        proof {
            use_type_invariant(&*self);
        }
        if self.next < self.candidates.len() {
            let e = self.candidates[self.next];
            assert(self.candidates@.skip(self.next + 1) =~= self.candidates@.skip(
                self.next as int,
            ).drop_first());
            self.next = self.next + 1;
            Some(e)
        } else {
            None
        }
    }

    /// The first step of the search: the first candidate to try, or
    /// `Exhausted` where there is none.
    pub fn begin(&mut self) -> (r: ListenStep)
        ensures
            old(self).remaining().len() == 0 ==> r == ListenStep::Exhausted && final(self).remaining()
                == old(self).remaining(),
            old(self).remaining().len() > 0 ==> r == ListenStep::Try(old(self).remaining()[0])
                && final(self).remaining() == old(self).remaining().drop_first()
                && final(self).tried() == Some(old(self).remaining()[0]),
    {
        match self.next_candidate() {
            Some(e) => ListenStep::Try(e),
            None => ListenStep::Exhausted,
        }
    }

    /// The step after an attempt to bind the candidate tried last: listen
    /// there if it was bound, else go on to the next candidate, each failure
    /// counting as final for its candidate; `Exhausted` once none is left.
    pub fn after_bind(&mut self, outcome: BindOutcome) -> (r: ListenStep)
        ensures
            outcome == BindOutcome::Bound && old(self).tried() is Some ==> r == ListenStep::Listening(
                old(self).tried()->Some_0,
            ) && final(self).remaining() == old(self).remaining() && final(self).tried() == old(
                self,
            ).tried(),
            !(outcome == BindOutcome::Bound && old(self).tried() is Some) ==> {
                &&& old(self).remaining().len() == 0 ==> r == ListenStep::Exhausted
                    && final(self).remaining() == old(self).remaining()
                &&& old(self).remaining().len() > 0 ==> r == ListenStep::Try(
                    old(self).remaining()[0],
                ) && final(self).remaining() == old(self).remaining().drop_first()
                    && final(self).tried() == Some(old(self).remaining()[0])
            },
    {
        proof {
            use_type_invariant(&*self);
        }
        match outcome {
            BindOutcome::Bound => if self.next > 0 {
                return ListenStep::Listening(self.candidates[self.next - 1]);
            },
            BindOutcome::Failed => {},
        }
        self.begin()
    }
}

/// A failed bind of the IPv6 candidate does not end the search: the next
/// candidate is every IPv4 interface on the same port, and it is the last.
/// Together with `ListenerSearch::after_bind`, a failure on IPv6 leads to a
/// try on IPv4, and the search is exhausted only after both failed.
pub proof fn lemma_ipv4_follows_ipv6(port: u16)
    ensures
        listen_order(port).len() == 2,
        listen_order(port)[0].family == Family::V6,
        listen_order(port)[1] == (Endpoint { family: Family::V4, host: Host::Unspecified, port }),
{
}

} // verus!
