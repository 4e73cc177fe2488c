//! The bounded status messages that the tasks forward to the status sink,
//! and the ambient-light classification they report.

use vstd::prelude::*;
use crate::MSG_CAP;
use crate::containers::msg_chars;
use crate::containers::msg_new;
use crate::containers::msg_push;
use crate::containers::msg_push_str;
use crate::containers::line_elems;
use crate::containers::line_vec_get;
use crate::numfmt::dec_digits;
use crate::numfmt::u16_digits;
use crate::DARK_THRESHOLD;
use crate::N_LINES;

verus! {

/// A reading strictly below the dark threshold counts as dark.
pub open spec fn spec_is_dark(lx: u16) -> bool {
    lx < DARK_THRESHOLD
}

/// Classifies an ambient-light reading.
pub fn is_dark(lx: u16) -> (r: bool)
    ensures
        r == spec_is_dark(lx),
{
    lx < DARK_THRESHOLD
}

/// The message the motor task emits after an actuation, naming the
/// ambient-light reading taken at that moment.
pub open spec fn motor_message_chars(lx: u16) -> Seq<char> {
    "boop detected. activating motor. light level: "@ + dec_digits(lx as nat)
}

/// The message the LED task emits after a toggle, classifying the
/// ambient-light reading taken at that moment.
pub open spec fn led_message_chars(lx: u16) -> Seq<char> {
    "boop detected. light level: "@ + (if spec_is_dark(lx) {
        "dark"@
    } else {
        "light"@
    })
}

/// The character reporting one line's level.
pub open spec fn level_char(level: bool) -> char {
    if level {
        '1'
    } else {
        '0'
    }
}

/// The aggregator's report of the full digital state, one level per
/// monitored line in line-index order.
pub open spec fn board_message_chars(lines: Seq<bool>) -> Seq<char>
    recommends
        lines.len() == N_LINES,
{
    "Button Board: "@ + seq![
        level_char(lines[0]),
        ' ',
        level_char(lines[1]),
        ' ',
        level_char(lines[2]),
        ' ',
        level_char(lines[3]),
    ]
}

/// Appends the decimal rendering of `v` to a message that has room for
/// the at most five digits of a 16-bit value.
pub fn msg_push_u16(m: &mut heapless::String<MSG_CAP>, v: u16)
    requires
        vstd::utf8::is_ascii_chars(msg_chars(*old(m))),
        msg_chars(*old(m)).len() + 5 <= 64,
    ensures
        msg_chars(*final(m)) =~= msg_chars(*old(m)) + dec_digits(v as nat),
        vstd::utf8::is_ascii_chars(msg_chars(*final(m))),
{
    proof {
        crate::numfmt::lemma_dec_digits_len_u16(v);
    }
    let digits = u16_digits(v);
    let ghost head = msg_chars(*m);
    let mut i: usize = 0;
    while i < digits.len()
        invariant
            i <= digits@.len(),
            digits@ =~= dec_digits(v as nat),
            digits@.len() <= 5,
            vstd::utf8::is_ascii_chars(digits@),
            head.len() + 5 <= 64,
            msg_chars(*m) =~= head + digits@.take(i as int),
            vstd::utf8::is_ascii_chars(msg_chars(*m)),
        decreases digits@.len() - i,
    {
        let c = digits[i];
        assert(c == digits@[i as int]);
        let _ok = msg_push(m, c);
        proof {
            assert(msg_chars(*m) =~= head + digits@.take(i + 1));
        }
        i = i + 1;
    }
    proof {
        assert(digits@.take(digits@.len() as int) =~= digits@);
    }
}

/// Builds the motor task's status message.
pub fn motor_message(lx: u16) -> (m: heapless::String<MSG_CAP>)
    ensures
        msg_chars(m) =~= motor_message_chars(lx),
        vstd::utf8::is_ascii_chars(msg_chars(m)),
{
    proof {
        reveal_strlit("boop detected. activating motor. light level: ");
    }
    let mut m = msg_new();
    let _ok = msg_push_str(&mut m, "boop detected. activating motor. light level: ");
    msg_push_u16(&mut m, lx);
    m
}

/// The periodic ambient-light report, naming the raw reading.
pub open spec fn lx_reading_chars(lx: u16) -> Seq<char> {
    "LX Reading: "@ + dec_digits(lx as nat)
}

/// Builds the periodic ambient-light report.
pub fn lx_reading_message(lx: u16) -> (m: heapless::String<MSG_CAP>)
    ensures
        msg_chars(m) =~= lx_reading_chars(lx),
        vstd::utf8::is_ascii_chars(msg_chars(m)),
{
    proof {
        reveal_strlit("LX Reading: ");
    }
    let mut m = msg_new();
    let _ok = msg_push_str(&mut m, "LX Reading: ");
    msg_push_u16(&mut m, lx);
    m
}

/// Builds the LED task's status message.
pub fn led_message(lx: u16) -> (m: heapless::String<MSG_CAP>)
    ensures
        msg_chars(m) =~= led_message_chars(lx),
        vstd::utf8::is_ascii_chars(msg_chars(m)),
{
    proof {
        reveal_strlit("boop detected. light level: ");
        reveal_strlit("dark");
        reveal_strlit("light");
    }
    let mut m = msg_new();
    let _ok = msg_push_str(&mut m, "boop detected. light level: ");
    let _ok2 = if is_dark(lx) {
        msg_push_str(&mut m, "dark")
    } else {
        msg_push_str(&mut m, "light")
    };
    m
}

/// Builds the aggregator's status message from an atomic snapshot of the
/// digital state vector.
pub fn board_message(snapshot: &heapless::Vec<bool, N_LINES>) -> (m: heapless::String<MSG_CAP>)
    requires
        line_elems(*snapshot).len() == N_LINES,
    ensures
        msg_chars(m) =~= board_message_chars(line_elems(*snapshot)),
        vstd::utf8::is_ascii_chars(msg_chars(m)),
{
    proof {
        reveal_strlit("Button Board: ");
    }
    let mut m = msg_new();
    let _ok = msg_push_str(&mut m, "Button Board: ");
    let _ok0 = msg_push(&mut m, level_char_exec(line_vec_get(snapshot, 0)));
    let _oks0 = msg_push(&mut m, ' ');
    let _ok1 = msg_push(&mut m, level_char_exec(line_vec_get(snapshot, 1)));
    let _oks1 = msg_push(&mut m, ' ');
    let _ok2 = msg_push(&mut m, level_char_exec(line_vec_get(snapshot, 2)));
    let _oks2 = msg_push(&mut m, ' ');
    let _ok3 = msg_push(&mut m, level_char_exec(line_vec_get(snapshot, 3)));
    proof {
        assert(msg_chars(m) =~= board_message_chars(line_elems(*snapshot)));
    }
    m
}

/// The character reporting one line's level.
pub fn level_char_exec(level: bool) -> (c: char)
    ensures
        c == level_char(level),
        '0' <= c && c <= '9',
{
    if level {
        '1'
    } else {
        '0'
    }
}

/// Formatting is a pure function of the snapshot: reading the same
/// aggregate state twice without an intervening write yields the identical
/// message both times.
pub proof fn lemma_board_message_deterministic(s1: Seq<bool>, s2: Seq<bool>)
    requires
        s1 =~= s2,
    ensures
        board_message_chars(s1) == board_message_chars(s2),
{
}

} // verus!
