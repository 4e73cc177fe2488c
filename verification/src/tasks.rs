//! The per-event steps of the edge monitors and the aggregator.
//!
//! The loops around these steps live with the hardware: an edge monitor
//! blocks until a transition on its line and then calls `monitor_step`; the
//! aggregator blocks on the event queue and calls `aggregator_step` on
//! whatever it dequeues. Each step is a pure transition from the observed
//! plain values to the next shared state and output.

use vstd::prelude::*;
use crate::MSG_CAP;
use crate::containers::msg_chars;
use crate::digital::DigitalState;
use crate::event::Event;
use crate::message::board_message;
use crate::message::board_message_chars;
use crate::message::level_char;
use crate::N_LINES;

verus! {

/// One edge on line `line`: records the new level at that line's own index
/// — and at no other — and hands back the event to enqueue. The caller
/// enqueues the returned event only after this write, so a consumer that
/// dequeues it is guaranteed to see the updated index.
pub fn monitor_step(lines: &mut DigitalState, line: u8, level: bool) -> (e: Event)
    requires
        old(lines).wf(),
        (line as usize) < N_LINES,
    ensures
        final(lines).wf(),
        final(lines).lines() =~= old(lines).lines().update(line as int, level),
        final(lines).lines()[line as int] == level,
        forall|j: int|
            0 <= j < N_LINES && j != line as int ==> final(lines).lines()[j] == old(
                lines,
            ).lines()[j],
        e == (Event::Edge { line, level }),
        e.wf(),
    {
    lines.set_line(line as usize, level);
    Event::Edge { line, level }
}

/// One dequeued event: takes a full atomic snapshot of the digital state
/// and formats the aggregate report. The message reflects the state at this
/// moment, whichever event woke the aggregator, so a burst of edges may
/// report the same aggregate state more than once — the formatting is
/// deterministic in the snapshot alone.
pub fn aggregator_step(event: &Event, lines: &DigitalState) -> (m: heapless::String<MSG_CAP>)
    requires
        lines.wf(),
    ensures
        msg_chars(m) =~= board_message_chars(lines.lines()),
{
    let snapshot = lines.snapshot();
    board_message(&snapshot)
}

/// The pipeline from an edge to its report: after a monitor records an
/// edge on line `i`, an aggregate report built from the updated state
/// shows the new level in that line's column of the message.
pub proof fn lemma_report_shows_updated_line(s: Seq<bool>, i: int, level: bool)
    requires
        s.len() == N_LINES,
        0 <= i < N_LINES,
    ensures
        board_message_chars(s.update(i, level))[14 + 2 * i] == level_char(level),
{
    reveal_strlit("Button Board: ");
    let updated = s.update(i, level);
    let tail = seq![
        level_char(updated[0]),
        ' ',
        level_char(updated[1]),
        ' ',
        level_char(updated[2]),
        ' ',
        level_char(updated[3]),
    ];
    assert(board_message_chars(updated) =~= "Button Board: "@ + tail);
    assert("Button Board: "@.len() == 14);
    assert(tail[2 * i] == level_char(updated[i]));
    assert(updated[i] == level);
}

} // verus!
