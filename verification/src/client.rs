//! The client side of discovery: one multicast Request, then a bounded
//! window in which every inbound datagram is examined and the valid
//! Responses are collected.
//!
//! The socket work and the clock stay with the caller, which feeds each
//! received datagram to `Query::absorb` and calls `Query::on_deadline`
//! when the time budget elapses. What is collected, and that nothing but
//! a well-formed Response with the right marker is ever collected, is
//! verified here.

use vstd::prelude::*;

use crate::peer::PeerAddr;
use crate::record::Record;
use crate::wire::{spec_wire_decode, wire_decode};

verus! {

/// One discovered host: the peer address a Response arrived from and the
/// port the responding service advertised.
#[derive(Clone, Copy, Debug, PartialEq, Eq, Structural)]
pub struct Discovery {
    pub addr: PeerAddr,
    pub port: u16,
}

/// The port a datagram advertises, if it decodes to a Response; `None`
/// for anything else, a Request (the client's own, echoed back by
/// multicast loopback) included.
pub open spec fn spec_client_step(datagram: Seq<u8>) -> Option<u16> {
    match spec_wire_decode(datagram) {
        Some(Record::Response { port }) => Some(port),
        _ => None,
    }
}

/// Everything a query collects from a sequence of received datagrams,
/// each paired with its sender: one discovery per valid Response, in
/// arrival order, and nothing for any other datagram.
pub open spec fn spec_collect(events: Seq<(Seq<u8>, PeerAddr)>) -> Seq<Discovery>
    decreases events.len(),
{
    if events.len() == 0 {
        Seq::<Discovery>::empty()
    } else {
        spec_collect(events.drop_last()) + (match spec_client_step(events.last().0) {
            Some(port) => seq![Discovery { addr: events.last().1, port }],
            None => Seq::<Discovery>::empty(),
        })
    }
}

/// Collection is compositional: what a query collects from two stretches
/// of traffic, one after the other, is what it collects from the first
/// followed by what it collects from the second.
pub proof fn lemma_collect_concat(a: Seq<(Seq<u8>, PeerAddr)>, b: Seq<(Seq<u8>, PeerAddr)>)
    ensures
        spec_collect(a + b) == spec_collect(a) + spec_collect(b),
    decreases b.len(),
{
    if b.len() == 0 {
        assert(a + b =~= a);
        assert(spec_collect(a) + spec_collect(b) =~= spec_collect(a));
    } else {
        lemma_collect_concat(a, b.drop_last());
        assert((a + b).drop_last() =~= a + b.drop_last());
        assert((a + b).last() == b.last());
        assert(spec_collect(a + b) =~= spec_collect(a) + spec_collect(b));
    }
}

/// When every received datagram is a valid Response — as when several
/// servers all reply before the deadline — the query collects exactly one
/// discovery per datagram, in arrival order, each attributed to its
/// sender and carrying the advertised port.
pub proof fn lemma_multi_responder_aggregation(events: Seq<(Seq<u8>, PeerAddr)>)
    requires
        forall|i: int| 0 <= i < events.len() ==> (#[trigger] spec_client_step(
            events[i].0,
        )) is Some,
    ensures
        spec_collect(events).len() == events.len(),
        forall|i: int|
            0 <= i < events.len() ==> {
                &&& (#[trigger] spec_collect(events)[i]).addr == events[i].1
                &&& Some(spec_collect(events)[i].port) == spec_client_step(events[i].0)
            },
    decreases events.len(),
{
    if events.len() > 0 {
        lemma_multi_responder_aggregation(events.drop_last());
    }
}

/// A malformed datagram received anywhere among valid Responses leaves
/// the query's result exactly what it would have been without it.
pub proof fn lemma_garbage_tolerance(
    before: Seq<(Seq<u8>, PeerAddr)>,
    junk: (Seq<u8>, PeerAddr),
    after: Seq<(Seq<u8>, PeerAddr)>,
)
    requires
        spec_client_step(junk.0) is None,
    ensures
        spec_collect(before + seq![junk] + after) == spec_collect(before + after),
{
    lemma_collect_concat(before, seq![junk]);
    lemma_collect_concat(before + seq![junk], after);
    lemma_collect_concat(before, after);
    let e = Seq::<(Seq<u8>, PeerAddr)>::empty();
    assert(seq![junk].drop_last() =~= e);
    assert(spec_collect(e) == Seq::<Discovery>::empty());
    assert(spec_collect(seq![junk]) == spec_collect(e) + Seq::<Discovery>::empty());
    assert(spec_collect(seq![junk]) =~= Seq::<Discovery>::empty());
    assert(spec_collect(before) + spec_collect(seq![junk]) =~= spec_collect(before));
}

/// The ports named by a collection of discoveries, as a set.
pub open spec fn spec_ports_of(rs: Seq<Discovery>) -> Set<u16> {
    Set::new(|p: u16| exists|i: int| 0 <= i < rs.len() && rs[i].port == p)
}

/// The ports offered by a stretch of traffic: those advertised by some
/// valid Response in it.
pub open spec fn spec_offered_ports(events: Seq<(Seq<u8>, PeerAddr)>) -> Set<u16> {
    Set::new(|p: u16| exists|i: int| 0 <= i < events.len() && spec_client_step(events[i].0) == Some(p))
}

/// A query's port set is exactly the ports its traffic offered, whatever
/// the arrival order.
pub proof fn lemma_ports_collected(events: Seq<(Seq<u8>, PeerAddr)>)
    ensures
        spec_ports_of(spec_collect(events)) == spec_offered_ports(events),
    decreases events.len(),
{
    let rs = spec_collect(events);
    if events.len() == 0 {
        assert(spec_ports_of(rs) =~= spec_offered_ports(events));
    } else {
        let dl = events.drop_last();
        lemma_ports_collected(dl);
        let rs0 = spec_collect(dl);
        assert forall|p: u16| spec_ports_of(rs).contains(p) implies spec_offered_ports(
            events,
        ).contains(p) by {
            let i = choose|i: int| 0 <= i < rs.len() && rs[i].port == p;
            if i < rs0.len() {
                assert(spec_ports_of(rs0).contains(p));
                let j = choose|j: int|
                    0 <= j < dl.len() && spec_client_step(dl[j].0) == Some(p);
                assert(spec_client_step(events[j].0) == Some(p));
            } else {
                assert(spec_client_step(events[events.len() - 1].0) == Some(p));
            }
        };
        assert forall|p: u16| spec_offered_ports(events).contains(p) implies spec_ports_of(
            rs,
        ).contains(p) by {
            let i = choose|i: int|
                0 <= i < events.len() && spec_client_step(events[i].0) == Some(p);
            if i < dl.len() {
                assert(spec_client_step(dl[i].0) == Some(p));
                assert(spec_offered_ports(dl).contains(p));
                let j = choose|j: int| 0 <= j < rs0.len() && rs0[j].port == p;
                assert(rs[j].port == p);
            } else {
                assert(rs[rs.len() - 1].port == p);
            }
        };
        assert(spec_ports_of(rs) =~= spec_offered_ports(events));
    }
}

/// Two queries whose traffic offers the same ports — as repeated queries
/// against an unchanged set of servers do — collect the same port set,
/// whatever the order and senders of the replies.
pub proof fn lemma_idempotent_discovery(
    first: Seq<(Seq<u8>, PeerAddr)>,
    second: Seq<(Seq<u8>, PeerAddr)>,
)
    requires
        spec_offered_ports(first) == spec_offered_ports(second),
    ensures
        spec_ports_of(spec_collect(first)) == spec_ports_of(spec_collect(second)),
{
    lemma_ports_collected(first);
    lemma_ports_collected(second);
}

/// Examine one received datagram as the client does.
pub fn client_step(datagram: &Vec<u8>) -> (r: Option<u16>)
    ensures
        r == spec_client_step(datagram@),
{
    match wire_decode(datagram) {
        Some(Record::Response { port }) => Some(port),
        _ => None,
    }
}

/// A running query: the discoveries collected so far, whether the time
/// budget has elapsed, and (as ghost state) the datagrams absorbed so
/// far, so that the collection can be related to the whole history.
pub struct Query {
    results: Vec<Discovery>,
    done: bool,
    events: Ghost<Seq<(Seq<u8>, PeerAddr)>>,
}

impl Query {
    /// The discoveries collected so far, oldest first.
    pub closed spec fn results_seq(self) -> Seq<Discovery> {
        self.results@
    }

    /// The datagrams absorbed so far, each with its sender.
    pub closed spec fn history(self) -> Seq<(Seq<u8>, PeerAddr)> {
        self.events@
    }

    /// Whether the time budget has elapsed and the query is complete.
    pub closed spec fn is_done(self) -> bool {
        self.done
    }

    /// A query holds exactly what its history yields: every valid
    /// Response absorbed so far, and nothing else.
    pub open spec fn wf(self) -> bool {
        self.results_seq() == spec_collect(self.history())
    }

    /// Start a query: nothing collected, nothing absorbed, clock running.
    pub fn new() -> (q: Query)
        ensures
            q.wf(),
            !q.is_done(),
            q.history() == Seq::<(Seq<u8>, PeerAddr)>::empty(),
            q.results_seq() == Seq::<Discovery>::empty(),
    {
        Query { results: Vec::new(), done: false, events: Ghost(Seq::empty()) }
    }

    /// Absorb one received datagram: collect a discovery iff it decodes
    /// to a Response, attributed to the exact sender; discard silently
    /// otherwise.
    pub fn absorb(&mut self, datagram: &Vec<u8>, sender: PeerAddr)
        requires
            old(self).wf(),
            !old(self).is_done(),
        ensures
            final(self).wf(),
            !final(self).is_done(),
            final(self).history() == old(self).history().push((datagram@, sender)),
            final(self).results_seq() == old(self).results_seq() + (
            match spec_client_step(datagram@) {
                Some(port) => seq![Discovery { addr: sender, port }],
                None => Seq::<Discovery>::empty(),
            }),
    {
        proof {
            let ghost h = self.events@.push((datagram@, sender));
            assert(h.drop_last() =~= self.events@);
        }
        self.events = Ghost(self.events@.push((datagram@, sender)));
        match client_step(datagram) {
            Some(port) => {
                self.results.push(Discovery { addr: sender, port });
                assert(self.results@ =~= spec_collect(self.events@));
            },
            None => {
                assert(self.results@ =~= spec_collect(self.events@));
            },
        }
    }

    /// The deadline has elapsed: the query completes at once, with
    /// exactly what was collected, as its normal, successful end.
    pub fn on_deadline(&mut self)
        requires
            old(self).wf(),
        ensures
            final(self).wf(),
            final(self).is_done(),
            final(self).history() == old(self).history(),
            final(self).results_seq() == old(self).results_seq(),
    {
        self.done = true;
    }

    /// The discoveries collected so far.
    pub fn results(&self) -> (r: &Vec<Discovery>)
        ensures
            r@ == self.results_seq(),
    {
        &self.results
    }
}

} // verus!
