//! Counting the responses a server has flushed, for its throughput.

use vstd::prelude::*;

verus! {

/// What the transport answered: a send that it accepted or not, or a flush
/// that wrote everything or not.
pub enum TrafficEvent {
    Sent(bool),
    Flushed(bool),
}

/// The counts (flushed, buffered) after one answer of the transport.
pub open spec fn traffic_step(c: (nat, nat), e: TrafficEvent) -> (nat, nat) {
    match e {
        TrafficEvent::Sent(accepted) => (c.0, c.1 + if accepted { 1nat } else { 0nat }),
        TrafficEvent::Flushed(ready) => if ready { (c.0 + c.1, 0nat) } else { c },
    }
}

/// The counts after the answers `es`, in order.
pub open spec fn traffic_after(c: (nat, nat), es: Seq<TrafficEvent>) -> (nat, nat)
    decreases es.len(),
{
    if es.len() == 0 {
        c
    } else {
        traffic_step(traffic_after(c, es.drop_last()), es.last())
    }
}

/// The number of sends among `es` that the transport accepted.
pub open spec fn accepted_sends(es: Seq<TrafficEvent>) -> nat
    decreases es.len(),
{
    if es.len() == 0 {
        0
    } else {
        accepted_sends(es.drop_last()) + if es.last() matches TrafficEvent::Sent(true) { 1nat } else { 0nat }
    }
}

/// Every accepted send is counted once: after any answers of the
/// transport, the flushed and buffered counts together grew by the number
/// of accepted sends, and after a flush that wrote everything all of them
/// count as flushed.
pub proof fn lemma_traffic_counts(c: (nat, nat), es: Seq<TrafficEvent>)
    ensures
        traffic_after(c, es).0 + traffic_after(c, es).1 == c.0 + c.1 + accepted_sends(es),
        es.len() > 0 && es.last() == TrafficEvent::Flushed(true) ==> traffic_after(c, es) == (
            c.0 + c.1 + accepted_sends(es),
            0nat,
        ),
    decreases es.len(),
{
    if es.len() > 0 {
        lemma_traffic_counts(c, es.drop_last());
    }
}

/// A transport middleware that counts processed messages: a response counts
/// as buffered once the transport accepts it, and as flushed once the
/// transport reports everything written.
#[derive(Debug)]
pub struct TrafficCounting<T> {
    buffered: usize,
    flushed: usize,
    io: T,
}

impl<T> TrafficCounting<T> {
    /// Responses accepted but not yet flushed.
    pub closed spec fn buffered(&self) -> nat {
        self.buffered as nat
    }

    /// Responses flushed.
    pub closed spec fn flushed(&self) -> nat {
        self.flushed as nat
    }

    /// The transport, in specifications.
    pub closed spec fn inner(&self) -> T {
        self.io
    }

    /// A middleware over `io` whose flushed count starts at `flushed`.
    pub fn new(flushed: usize, io: T) -> (r: Self)
        ensures
            r.buffered() == 0,
            r.flushed() == flushed,
            r.inner() == io,
    {
        TrafficCounting { buffered: 0, flushed, io }
    }

    /// The transport.
    pub fn get_mut(&mut self) -> (r: &mut T)
        ensures
            *r == old(self).inner(),
            final(self).inner() == *final(r),
            final(self).buffered() == old(self).buffered(),
            final(self).flushed() == old(self).flushed(),
    {
        &mut self.io
    }

    /// The transport, giving up the counts.
    pub fn into_inner(self) -> (r: T)
        ensures
            r == self.inner(),
    {
        self.io
    }

    /// The number of responses accepted but not yet flushed.
    pub fn buffered_count(&self) -> (r: usize)
        ensures
            r == self.buffered(),
    {
        self.buffered
    }

    /// The number of responses flushed.
    pub fn flushed_count(&self) -> (r: usize)
        ensures
            r == self.flushed(),
    {
        self.flushed
    }

    /// The transport answered a send: a response it accepted counts as
    /// buffered.
    pub fn start_send_done(&mut self, accepted: bool)
        requires
            old(self).flushed() + old(self).buffered() < usize::MAX,
        ensures
            final(self).buffered() == old(self).buffered() + if accepted { 1nat } else { 0nat },
            final(self).flushed() == old(self).flushed(),
            final(self).flushed() + final(self).buffered() == old(self).flushed() + old(self).buffered()
                + if accepted { 1nat } else { 0nat },
            final(self).inner() == old(self).inner(),
            (final(self).flushed(), final(self).buffered()) == traffic_step(
                (old(self).flushed(), old(self).buffered()),
                TrafficEvent::Sent(accepted),
            ),
    {
        if accepted {
            self.buffered = self.buffered + 1;
        }
    }

    /// The transport answered a flush: when everything was written, the
    /// buffered responses count as flushed.
    pub fn poll_complete_done(&mut self, ready: bool)
        requires
            old(self).flushed() + old(self).buffered() <= usize::MAX,
        ensures
            ready ==> final(self).buffered() == 0 && final(self).flushed() == old(self).flushed()
                + old(self).buffered(),
            !ready ==> final(self).buffered() == old(self).buffered() && final(self).flushed()
                == old(self).flushed(),
            final(self).flushed() + final(self).buffered() == old(self).flushed() + old(self).buffered(),
            final(self).inner() == old(self).inner(),
            (final(self).flushed(), final(self).buffered()) == traffic_step(
                (old(self).flushed(), old(self).buffered()),
                TrafficEvent::Flushed(ready),
            ),
    {
        if ready {
            let b = self.buffered;
            self.buffered = 0;
            self.flushed = self.flushed + b;
        }
    }
}

} // verus!
