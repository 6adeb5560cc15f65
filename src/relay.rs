//! One direction of a relayed session: read from one socket, write what was
//! read to the other, and shut both sockets down once either side is done.
//!
//! The caller performs the reads, writes and shutdowns; this machine decides
//! which of them comes next from the outcome of the previous one.
use vstd::prelude::*;

verus! {

/// The size of the buffer each direction reads into.
pub const RELAY_BUFFER_SIZE: usize = 1024;

/// Where one direction of a relay stands.
#[derive(Clone, Copy, Debug, PartialEq, Eq, Structural)]
pub enum RelayPhase {
    /// Waiting for the outcome of a read.
    Reading,
    /// Waiting for the outcome of writing the given number of bytes that the
    /// last read gave.
    Writing(usize),
    /// The direction has ended and both sockets have been shut down.
    Finished,
}

/// The outcome of the operation the relay asked for.
#[derive(Clone, Copy, Debug, PartialEq, Eq, Structural)]
pub enum RelayEvent {
    /// A read gave this many bytes; zero means end of stream.
    Received(usize),
    /// A read failed.
    ReadFailed,
    /// Every byte of the last read was written.
    Sent,
    /// Writing failed.
    SendFailed,
}

/// The operation the relay asks for next.
#[derive(Clone, Copy, Debug, PartialEq, Eq, Structural)]
pub enum RelayAction {
    /// Read from the source socket into the buffer.
    Read,
    /// Write the first this many bytes of the buffer to the peer.
    Send(usize),
    /// Shut down reading and writing on both sockets; the direction is over.
    ShutDownBoth,
    /// Nothing: the event did not fit the phase, or the direction is over.
    Nothing,
}

/// One step of a direction: the phase after `e`, and what to do next.
pub open spec fn relay_step(p: RelayPhase, e: RelayEvent) -> (RelayPhase, RelayAction) {
    match (p, e) {
        (RelayPhase::Reading, RelayEvent::Received(n)) => if n == 0 {
            (RelayPhase::Finished, RelayAction::ShutDownBoth)
        } else {
            (RelayPhase::Writing(n), RelayAction::Send(n))
        },
        (RelayPhase::Reading, RelayEvent::ReadFailed) => (
            RelayPhase::Finished,
            RelayAction::ShutDownBoth,
        ),
        (RelayPhase::Writing(_), RelayEvent::Sent) => (RelayPhase::Reading, RelayAction::Read),
        (RelayPhase::Writing(_), RelayEvent::SendFailed) => (
            RelayPhase::Finished,
            RelayAction::ShutDownBoth,
        ),
        _ => (p, RelayAction::Nothing),
    }
}

/// One direction of a relay.
pub struct RelayDirection {
    phase: RelayPhase,
}

impl View for RelayDirection {
    type V = RelayPhase;

    closed spec fn view(&self) -> RelayPhase {
        self.phase
    }
}

impl RelayDirection {
    /// A direction that starts by reading.
    pub fn new() -> (r: RelayDirection)
        ensures
            r@ == RelayPhase::Reading,
    {
        RelayDirection { phase: RelayPhase::Reading }
    }

    pub fn phase(&self) -> (r: RelayPhase)
        ensures
            r == self@,
    {
        self.phase
    }

    /// Takes in the outcome of the last operation and says what to do next.
    pub fn handle(&mut self, e: RelayEvent) -> (a: RelayAction)
        ensures
            (final(self)@, a) == relay_step(old(self)@, e),
    {
        let (p, a) = match (self.phase, e) {
            (RelayPhase::Reading, RelayEvent::Received(n)) => if n == 0 {
                (RelayPhase::Finished, RelayAction::ShutDownBoth)
            } else {
                (RelayPhase::Writing(n), RelayAction::Send(n))
            },
            (RelayPhase::Reading, RelayEvent::ReadFailed) => (
                RelayPhase::Finished,
                RelayAction::ShutDownBoth,
            ),
            (RelayPhase::Writing(_), RelayEvent::Sent) => (RelayPhase::Reading, RelayAction::Read),
            (RelayPhase::Writing(_), RelayEvent::SendFailed) => (
                RelayPhase::Finished,
                RelayAction::ShutDownBoth,
            ),
            _ => (self.phase, RelayAction::Nothing),
        };
        self.phase = p;
        a
    }
}

/// The phase after a run of events from `p`, and the actions asked for on
/// the way, one for each event.
pub open spec fn replay(p: RelayPhase, events: Seq<RelayEvent>) -> (RelayPhase, Seq<RelayAction>)
    decreases events.len(),
{
    if events.len() == 0 {
        (p, Seq::empty())
    } else {
        let (q, a) = relay_step(p, events[0]);
        let (f, rest) = replay(q, events.drop_first());
        (f, seq![a] + rest)
    }
}

/// The sizes of the writes among `actions`, in order.
pub open spec fn sent_chunks(actions: Seq<RelayAction>) -> Seq<usize>
    decreases actions.len(),
{
    if actions.len() == 0 {
        Seq::empty()
    } else {
        match actions[0] {
            RelayAction::Send(n) => seq![n] + sent_chunks(actions.drop_first()),
            _ => sent_chunks(actions.drop_first()),
        }
    }
}

/// The events of a stream that delivers `chunks` and then ends, over a peer
/// that accepts every write.
pub open spec fn stream_events(chunks: Seq<usize>) -> Seq<RelayEvent>
    decreases chunks.len(),
{
    if chunks.len() == 0 {
        seq![RelayEvent::Received(0)]
    } else {
        seq![RelayEvent::Received(chunks[0]), RelayEvent::Sent] + stream_events(
            chunks.drop_first(),
        )
    }
}

/// Whatever a stream delivers before it ends is written to the peer once,
/// in the order and the pieces it was read in, and the direction then
/// finishes by shutting both sockets down.
pub proof fn lemma_relay_forwards_stream(chunks: Seq<usize>)
    requires
        forall|i: int| 0 <= i < chunks.len() ==> #[trigger] chunks[i] > 0,
    ensures
        replay(RelayPhase::Reading, stream_events(chunks)).0 == RelayPhase::Finished,
        sent_chunks(replay(RelayPhase::Reading, stream_events(chunks)).1) == chunks,
        replay(RelayPhase::Reading, stream_events(chunks)).1.last() == RelayAction::ShutDownBoth,
    decreases chunks.len(),
{
    let ev = stream_events(chunks);
    if chunks.len() == 0 {
        assert(ev == seq![RelayEvent::Received(0)]);
        assert(ev[0] == RelayEvent::Received(0));
        assert(ev.drop_first() =~= Seq::<RelayEvent>::empty());
        assert(replay(RelayPhase::Finished, ev.drop_first()) == (
            RelayPhase::Finished,
            Seq::<RelayAction>::empty(),
        ));
        let (f, acts) = replay(RelayPhase::Reading, ev);
        assert(acts == seq![RelayAction::ShutDownBoth] + Seq::<RelayAction>::empty());
        assert(acts =~= seq![RelayAction::ShutDownBoth]);
        assert(sent_chunks(acts.drop_first()) == Seq::<usize>::empty());
        assert(sent_chunks(acts) =~= chunks);
    } else {
        let rest = chunks.drop_first();
        assert forall|i: int| 0 <= i < rest.len() implies #[trigger] rest[i] > 0 by {
            assert(rest[i] == chunks[i + 1]);
        }
        lemma_relay_forwards_stream(rest);
        let tail = stream_events(rest);
        let c = chunks[0];
        assert(ev[0] == RelayEvent::Received(c));
        assert(ev.drop_first() =~= seq![RelayEvent::Sent] + tail);
        assert(ev.drop_first()[0] == RelayEvent::Sent);
        assert(ev.drop_first().drop_first() =~= tail);
        let (f2, acts2) = replay(RelayPhase::Reading, tail);
        let (f1, acts1) = replay(RelayPhase::Writing(c), ev.drop_first());
        assert(f1 == f2);
        assert(acts1 == seq![RelayAction::Read] + acts2);
        let (f0, acts0) = replay(RelayPhase::Reading, ev);
        assert(acts0 == seq![RelayAction::Send(c)] + acts1);
        assert(acts0.drop_first() =~= acts1);
        assert(acts1.drop_first() =~= acts2);
        assert(sent_chunks(acts1) == sent_chunks(acts2));
        assert(sent_chunks(acts0) == seq![c] + sent_chunks(acts1));
        assert(sent_chunks(acts0) =~= chunks);
        assert(acts0.last() == acts2.last());
    }
}

/// An event that a shut-down pair of sockets can give in phase `p`: a read
/// gives end of stream or fails, and a write fails.
pub open spec fn after_shutdown(p: RelayPhase, e: RelayEvent) -> bool {
    match p {
        RelayPhase::Reading => e == RelayEvent::Received(0) || e == RelayEvent::ReadFailed,
        RelayPhase::Writing(_) => e == RelayEvent::SendFailed,
        RelayPhase::Finished => true,
    }
}

/// Once one direction has shut both sockets down, the other direction ends
/// at its next event, whatever it was waiting for: no direction is left
/// blocked on a half-closed session.
pub proof fn lemma_shutdown_ends_other_direction(p: RelayPhase, e: RelayEvent)
    requires
        after_shutdown(p, e),
    ensures
        relay_step(p, e).0 == RelayPhase::Finished,
        p != RelayPhase::Finished ==> relay_step(p, e).1 == RelayAction::ShutDownBoth,
{
}

} // verus!
