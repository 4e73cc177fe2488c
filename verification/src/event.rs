//! The event type carried from the edge monitors to the aggregator, and
//! its two-byte wire form (line index, new level) used on the channel.

use vstd::prelude::*;
use crate::N_LINES;

verus! {

/// A discrete notification from a producer task to the aggregator: either
/// a bare wake-up pulse, or the line and new level of a detected edge.
#[derive(Clone, Copy, PartialEq, Eq, Structural, Debug)]
pub enum Event {
    Pulse,
    Edge { line: u8, level: bool },
}

impl Event {
    /// An edge event names a line that is actually monitored.
    pub open spec fn wf(self) -> bool {
        match self {
            Event::Pulse => true,
            Event::Edge { line, .. } => (line as usize) < N_LINES,
        }
    }

    /// The two-byte wire form of an edge event: the line index, then the
    /// level as 0 or 1.
    pub open spec fn spec_encode_edge(line: u8, level: bool) -> (u8, u8) {
        (line, if level { 1u8 } else { 0u8 })
    }

    /// Packs a detected edge for the event channel.
    pub fn encode_edge(line: u8, level: bool) -> (r: (u8, u8))
        ensures
            r == Event::spec_encode_edge(line, level),
    {
        (line, if level { 1 } else { 0 })
    }

    /// Unpacks a wire pair into an edge event. Any nonzero second byte
    /// reads as a high level; a line index out of range is rejected
    /// rather than carried on to an out-of-bounds state write.
    pub fn decode_edge(buf: (u8, u8)) -> (r: Option<Event>)
        ensures
            (buf.0 as usize) < N_LINES ==> r == Some(
                Event::Edge { line: buf.0, level: buf.1 != 0 },
            ),
            (buf.0 as usize) >= N_LINES ==> r is None,
            r is Some ==> r->0.wf(),
    {
        if (buf.0 as usize) < N_LINES {
            Some(Event::Edge { line: buf.0, level: buf.1 != 0 })
        } else {
            None
        }
    }
}

/// Encoding then decoding an edge event hands back the same event: no
/// monitored line's notification is changed by the trip over the channel.
pub proof fn lemma_edge_codec_round_trip(line: u8, level: bool)
    requires
        (line as usize) < N_LINES,
    ensures
        ({
            let buf = Event::spec_encode_edge(line, level);
            (buf.0 as usize) < N_LINES && (buf.1 != 0) == level
        }),
{
}

} // verus!
