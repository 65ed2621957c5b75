//! Candidate-port bookkeeping for the loopback listener.
//!
//! The redirect URI must match one of a fixed set of ports registered
//! with the authorization server.  The candidates are tried in some
//! order, each at most once; a port already in use is skipped, any
//! other bind failure aborts the flow, and running out of candidates is
//! its own terminal error.

use rand::seq::SliceRandom;
use vstd::prelude::*;

verus! {

/// Relies on rand's SliceRandom::shuffle with the thread generator:
/// the same candidates in a random order — a permutation, nothing
/// more.
#[verifier::external_body]
fn shuffle_ports(ports: Vec<u16>) -> (r: Vec<u16>)
    ensures
        r@.to_multiset() == ports@.to_multiset(),
        r@.len() == ports@.len(),
{
    let mut shuffled = ports;
    let mut rng = rand::thread_rng();
    shuffled.shuffle(&mut rng);
    shuffled
}

/// The candidate ports in the order this run will try them: a random
/// order each time, so no port is persistently preferred.
pub fn shuffled_candidates() -> (r: Vec<u16>)
    ensures
        r@.to_multiset() == seq![3003u16, 17465u16, 22496u16].to_multiset(),
        r@.len() == 3,
{
    shuffle_ports(candidate_ports())
}

/// The fixed candidate ports registered as redirect destinations.
pub fn candidate_ports() -> (r: Vec<u16>)
    ensures
        r@ == seq![3003u16, 17465u16, 22496u16],
{
    let mut v: Vec<u16> = Vec::new();
    v.push(3003);
    v.push(17465);
    v.push(22496);
    proof {
        assert(v@ =~= seq![3003u16, 17465u16, 22496u16]);
    }
    v
}

/// What a bind attempt on one candidate reported.
#[derive(Clone, Copy, Debug, PartialEq, Eq, Structural)]
pub enum BindEvent {
    /// The listener bound the port.
    Bound,
    /// The port is held by another process.
    AddrInUse,
    /// Any other failure: permissions, an invalid address.
    OtherError,
}

/// What to do after a bind attempt.
#[derive(Clone, Copy, Debug, PartialEq, Eq, Structural)]
pub enum BindDecision {
    /// Keep the listener; the scan is over.
    UsePort,
    /// Release nothing and try the next candidate.
    TryNext,
    /// A systemic failure: abort the whole flow.
    AbortFlow,
}

/// Decides how the port scan goes on after one bind attempt: only a
/// port already in use is worth another candidate.
pub fn bind_step(ev: &BindEvent) -> (r: BindDecision)
    ensures
        r == BindDecision::UsePort <==> ev is Bound,
        r == BindDecision::TryNext <==> ev is AddrInUse,
        r == BindDecision::AbortFlow <==> ev is OtherError,
{
    match ev {
        BindEvent::Bound => BindDecision::UsePort,
        BindEvent::AddrInUse => BindDecision::TryNext,
        BindEvent::OtherError => BindDecision::AbortFlow,
    }
}

/// A scan over the candidate ports: each is handed out once, in order.
pub struct PortScan {
    candidates: Vec<u16>,
    next: usize,
}

impl PortScan {
    /// The candidates not yet handed out.
    pub closed spec fn remaining(self) -> Seq<u16> {
        self.candidates@.skip(self.next as int)
    }

    pub closed spec fn wf(self) -> bool {
        self.next <= self.candidates@.len()
    }

    /// Starts a scan over the given candidates.
    pub fn new(candidates: Vec<u16>) -> (s: Self)
        ensures
            s.wf(),
            s.remaining() == candidates@,
    {
        let s = PortScan { candidates, next: 0 };
        proof {
            assert(s.remaining() =~= s.candidates@);
        }
        s
    }

    /// Hands out the next candidate, or nothing when the scan is
    /// exhausted.
    pub fn next_candidate(&mut self) -> (r: Option<u16>)
        requires
            old(self).wf(),
        ensures
            final(self).wf(),
            old(self).remaining().len() == 0 ==> r is None && final(self).remaining()
                == old(self).remaining(),
            old(self).remaining().len() > 0 ==> r == Some(old(self).remaining()[0])
                && final(self).remaining() == old(self).remaining().skip(1),
    {
        if self.next < self.candidates.len() {
            let p = self.candidates[self.next];
            self.next = self.next + 1;
            proof {
                assert(old(self).remaining()[0] == p);
                assert(self.remaining() =~= old(self).remaining().skip(1));
            }
            Some(p)
        } else {
            None
        }
    }
}

/// The port a scan settles on when a port in use answers `AddrInUse`
/// and a free one binds: the first candidate not in `occupied`.
pub open spec fn first_free(ports: Seq<u16>, occupied: Set<u16>) -> Option<u16>
    decreases ports.len(),
{
    if ports.len() == 0 {
        None
    } else if !occupied.contains(ports[0]) {
        Some(ports[0])
    } else {
        first_free(ports.skip(1), occupied)
    }
}

/// Law: whenever some candidate is free, the scan settles on a free
/// candidate from the list, whatever order the list is in.
pub proof fn lemma_scan_finds_free(ports: Seq<u16>, occupied: Set<u16>)
    requires
        exists|i: int| 0 <= i < ports.len() && !occupied.contains(#[trigger] ports[i]),
    ensures
        first_free(ports, occupied) matches Some(p) && !occupied.contains(p) && ports.contains(p),
    decreases ports.len(),
{
    if !occupied.contains(ports[0]) {
        assert(ports.contains(ports[0]));
    } else {
        let i = choose|i: int| 0 <= i < ports.len() && !occupied.contains(#[trigger] ports[i]);
        assert(ports.skip(1)[i - 1] == ports[i]);
        lemma_scan_finds_free(ports.skip(1), occupied);
        let p = first_free(ports.skip(1), occupied)->Some_0;
        let j = choose|j: int| 0 <= j < ports.skip(1).len() && ports.skip(1)[j] == p;
        assert(ports[j + 1] == p);
    }
}

/// Law: when every candidate but one given port is taken, the scan
/// settles exactly on that port, whatever order the candidates are in.
pub proof fn lemma_scan_settles_on_the_free_port(ports: Seq<u16>, occupied: Set<u16>, free: u16)
    requires
        ports.contains(free),
        !occupied.contains(free),
        forall|i: int| 0 <= i < ports.len() && ports[i] != free ==> occupied.contains(
            #[trigger] ports[i],
        ),
    ensures
        first_free(ports, occupied) == Some(free),
    decreases ports.len(),
{
    if !occupied.contains(ports[0]) {
        assert(ports[0] == free);
    } else {
        assert(ports[0] != free);
        let i = choose|i: int| 0 <= i < ports.len() && ports[i] == free;
        assert(i > 0);
        assert(ports.skip(1)[i - 1] == free);
        assert(ports.skip(1).contains(free));
        assert forall|j: int|
            0 <= j < ports.skip(1).len() && ports.skip(1)[j] != free implies occupied.contains(
            #[trigger] ports.skip(1)[j],
        ) by {
            assert(ports.skip(1)[j] == ports[j + 1]);
        }
        lemma_scan_settles_on_the_free_port(ports.skip(1), occupied, free);
    }
}

/// Law: the scan comes up empty exactly when every candidate is taken.
pub proof fn lemma_scan_exhausted(ports: Seq<u16>, occupied: Set<u16>)
    ensures
        first_free(ports, occupied) is None <==> forall|i: int|
            0 <= i < ports.len() ==> occupied.contains(#[trigger] ports[i]),
    decreases ports.len(),
{
    if ports.len() > 0 {
        lemma_scan_exhausted(ports.skip(1), occupied);
        if first_free(ports, occupied) is None {
            assert forall|i: int| 0 <= i < ports.len() implies occupied.contains(
                #[trigger] ports[i],
            ) by {
                if i > 0 {
                    assert(ports.skip(1)[i - 1] == ports[i]);
                }
            }
        } else {
            if occupied.contains(ports[0]) {
                assert(forall|j: int|
                    0 <= j < ports.skip(1).len() ==> ports.skip(1)[j] == ports[j + 1]);
            }
        }
    }
}

} // verus!
