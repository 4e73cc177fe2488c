//! The chase animation for the LED strip: one lit position sweeps forward
//! across the strip and then back, indefinitely.
//!
//! The task that owns the transport calls `advance` once per animation
//! tick, builds the current frame, and transmits it; position `i` of a
//! frame is lit exactly when `i mod LED_SPACING` equals the cursor.

use vstd::prelude::*;
use crate::N_LED;
use crate::LED_SPACING;

verus! {

/// One position's color in a frame.
#[derive(Clone, Copy, PartialEq, Eq, Structural, Debug)]
pub struct Rgb {
    pub red: u8,
    pub green: u8,
    pub blue: u8,
}

/// The color of a lit position.
pub open spec fn on_color() -> Rgb {
    Rgb { red: 255, green: 0, blue: 0 }
}

/// The color of an unlit position.
pub open spec fn off_color() -> Rgb {
    Rgb { red: 0, green: 0, blue: 0 }
}

/// The color of a lit position.
pub fn on_color_exec() -> (c: Rgb)
    ensures
        c == on_color(),
{
    Rgb { red: 255, green: 0, blue: 0 }
}

/// The color of an unlit position.
pub fn off_color_exec() -> (c: Rgb)
    ensures
        c == off_color(),
{
    Rgb { red: 0, green: 0, blue: 0 }
}

/// The frame for cursor `k`: position `i` is lit exactly when
/// `i mod LED_SPACING == k`.
pub open spec fn frame_spec(k: int) -> Seq<Rgb> {
    Seq::new(N_LED as nat, |i: int| if i % (LED_SPACING as int) == k {
        on_color()
    } else {
        off_color()
    })
}

/// Builds the frame for cursor `k`.
pub fn frame(k: usize) -> (f: Vec<Rgb>)
    requires
        k < LED_SPACING,
    ensures
        f@ =~= frame_spec(k as int),
        f@.len() == N_LED,
{
    let mut f: Vec<Rgb> = Vec::new();
    let mut i: usize = 0;
    while i < N_LED
        invariant
            i <= N_LED,
            k < LED_SPACING,
            f@.len() == i,
            forall|j: int| 0 <= j < i ==> f@[j] == frame_spec(k as int)[j],
        decreases N_LED - i,
    {
        if i % LED_SPACING == k {
            f.push(on_color_exec());
        } else {
            f.push(off_color_exec());
        }
        i = i + 1;
    }
    f
}

/// The cursor position at step `t` of the triangle-wave sweep: forward
/// through `0..LED_SPACING`, then backward through the same range, one
/// full cycle every `2 * LED_SPACING` steps.
pub open spec fn sweep_cursor(t: int) -> int
    recommends
        0 <= t < 2 * LED_SPACING,
{
    if t < LED_SPACING {
        t
    } else {
        2 * (LED_SPACING as int) - 1 - t
    }
}

/// The animation task's state: where in the current sweep cycle it stands.
pub struct ChaseState {
    step: usize,
}

impl ChaseState {
    /// The current step within the cycle of `2 * LED_SPACING` frames.
    pub closed spec fn step_index(&self) -> int {
        self.step as int
    }

    pub open spec fn wf(&self) -> bool {
        0 <= self.step_index() < 2 * LED_SPACING
    }

    /// The current step, for a caller that wants to test where in the
    /// cycle the sweep stands.
    pub fn step(&self) -> (t: usize)
        ensures
            t as int == self.step_index(),
    {
        self.step
    }

    /// The sweep starts at the first position, moving forward.
    pub fn new() -> (s: ChaseState)
        ensures
            s.wf(),
            s.step_index() == 0,
    {
        ChaseState { step: 0 }
    }

    /// The cursor for the current step.
    pub fn cursor(&self) -> (k: usize)
        requires
            self.wf(),
        ensures
            k as int == sweep_cursor(self.step_index()),
            k < LED_SPACING,
    {
        if self.step < LED_SPACING {
            self.step
        } else {
            2 * LED_SPACING - 1 - self.step
        }
    }

    /// The frame to transmit at the current step.
    pub fn current_frame(&self) -> (f: Vec<Rgb>)
        requires
            self.wf(),
        ensures
            f@ =~= frame_spec(sweep_cursor(self.step_index())),
            f@.len() == N_LED,
    {
        frame(self.cursor())
    }

    /// One animation tick: moves to the next step, wrapping after one
    /// full cycle of `2 * LED_SPACING` frames.
    pub fn advance(&mut self)
        requires
            old(self).wf(),
        ensures
            final(self).wf(),
            final(self).step_index() == (old(self).step_index() + 1) % (2 * LED_SPACING),
    {
        self.step = (self.step + 1) % (2 * LED_SPACING);
    }
}

/// When the strip length equals the spacing, every frame has exactly one
/// lit position, namely the cursor itself: position `i` is lit if and only
/// if `i == k`.
pub proof fn lemma_frame_single_lit(k: int)
    requires
        0 <= k < LED_SPACING,
    ensures
        forall|i: int|
            0 <= i < N_LED ==> (#[trigger] frame_spec(k)[i] == on_color() <==> i == k),
        frame_spec(k)[k] == on_color(),
{
    assert forall|i: int| 0 <= i < N_LED implies (#[trigger] frame_spec(k)[i] == on_color()
        <==> i == k) by {
        assert(i % (LED_SPACING as int) == i);
    }
}

/// After the `LED_SPACING` forward steps the sweep reverses: step
/// `LED_SPACING + j` revisits cursor `LED_SPACING - 1 - j`, so one full
/// cycle runs through `2 * LED_SPACING` frames before it repeats.
pub proof fn lemma_sweep_reverses(j: int)
    requires
        0 <= j < LED_SPACING,
    ensures
        sweep_cursor(j) == j,
        sweep_cursor(LED_SPACING + j) == (LED_SPACING as int) - 1 - j,
{
}

} // verus!
