//! Motion accumulation and the recording gate.
//!
//! Raw motion arrives as fixed-point samples: a signed horizontal delta and a
//! non-negative magnitude of the full delta, both in thousandths of a device
//! count. Two accumulation policies are offered. [`MotionRecorder`] gates the
//! sums on a recording flag and restarts them from zero whenever recording is
//! turned on. [`SessionRecorder`] integrates continuously from construction
//! and measures a recording window against a baseline snapshot, like a
//! stopwatch lap.

use vstd::prelude::*;
use crate::scalar::fits_i64;

verus! {

/// Spec-level state of the toggle-reset recorder, with unbounded sums.
pub struct RecView {
    pub x: int,
    pub abs: int,
    pub recording: bool,
}

/// One thing that can happen to a toggle-reset recorder.
#[derive(Clone, Copy, PartialEq, Eq, Structural, Debug)]
pub enum RecEvent {
    /// An attributed motion sample: signed horizontal delta and non-negative
    /// magnitude of the full delta, in thousandths of a count.
    Motion(i64, i64),
    /// The recording gate is toggled; opening it restarts both sums at zero.
    Toggle,
    /// The horizontal sum is zeroed by an explicit user action.
    ResetX,
    /// The absolute sum is zeroed by an explicit user action.
    ResetAbs,
}

/// One recorder transition.
pub open spec fn rec_step(s: RecView, e: RecEvent) -> RecView {
    match e {
        RecEvent::Motion(dx, mag) => if s.recording {
            RecView { x: s.x + dx, abs: s.abs + mag, recording: true }
        } else {
            s
        },
        RecEvent::Toggle => if s.recording {
            RecView { x: s.x, abs: s.abs, recording: false }
        } else {
            RecView { x: 0, abs: 0, recording: true }
        },
        RecEvent::ResetX => RecView { x: 0, abs: s.abs, recording: s.recording },
        RecEvent::ResetAbs => RecView { x: s.x, abs: 0, recording: s.recording },
    }
}

/// The recorder run left to right over a sequence of events.
pub open spec fn rec_run(s: RecView, evs: Seq<RecEvent>) -> RecView
    decreases evs.len(),
{
    if evs.len() == 0 {
        s
    } else {
        rec_run(rec_step(s, evs[0]), evs.subrange(1, evs.len() as int))
    }
}

/// Sum of the horizontal deltas of the motion events in `w`.
pub open spec fn sum_dx(w: Seq<RecEvent>) -> int
    decreases w.len(),
{
    if w.len() == 0 {
        0
    } else {
        sum_dx(w.drop_last()) + match w.last() {
            RecEvent::Motion(dx, _) => dx as int,
            _ => 0,
        }
    }
}

/// Sum of the magnitudes of the motion events in `w`.
pub open spec fn sum_mag(w: Seq<RecEvent>) -> int
    decreases w.len(),
{
    if w.len() == 0 {
        0
    } else {
        sum_mag(w.drop_last()) + match w.last() {
            RecEvent::Motion(_, mag) => mag as int,
            _ => 0,
        }
    }
}

/// The recording window: the recording flag together with the motion events
/// taken in strictly since recording last turned on (frozen once it stopped).
pub struct GateView {
    pub recording: bool,
    pub window: Seq<RecEvent>,
}

/// The window machine: turning recording on empties the window; while it is
/// on every motion event joins it; turning it off freezes it.
pub open spec fn gate_step(g: GateView, e: RecEvent) -> GateView {
    match e {
        RecEvent::Motion(dx, mag) => if g.recording {
            GateView { recording: true, window: g.window.push(e) }
        } else {
            g
        },
        RecEvent::Toggle => if g.recording {
            GateView { recording: false, window: g.window }
        } else {
            GateView { recording: true, window: Seq::empty() }
        },
        _ => g,
    }
}

/// The window machine run left to right.
pub open spec fn gate_run(g: GateView, evs: Seq<RecEvent>) -> GateView
    decreases evs.len(),
{
    if evs.len() == 0 {
        g
    } else {
        gate_run(gate_step(g, evs[0]), evs.subrange(1, evs.len() as int))
    }
}

/// Recording gate law: over any sequence of motion events interleaved with
/// gate toggles, the accumulators equal the sums of the deltas of exactly
/// those motion events that fell strictly between the last gate opening and
/// the following closing (or the end of the sequence), restarting from zero
/// at each opening. Stated for any starting point whose sums already match
/// its window; a fresh recorder matches the empty window.
pub proof fn lemma_recording_gate(s: RecView, g: GateView, evs: Seq<RecEvent>)
    requires
        s.recording == g.recording,
        s.x == sum_dx(g.window),
        s.abs == sum_mag(g.window),
        forall|i: int|
            0 <= i < evs.len() ==> (evs[i] matches RecEvent::Motion(_, _) || evs[i]
                == RecEvent::Toggle),
    ensures
        rec_run(s, evs).recording == gate_run(g, evs).recording,
        rec_run(s, evs).x == sum_dx(gate_run(g, evs).window),
        rec_run(s, evs).abs == sum_mag(gate_run(g, evs).window),
    decreases evs.len(),
{
    if evs.len() == 0 {
    } else {
        let e = evs[0];
        let s1 = rec_step(s, e);
        let g1 = gate_step(g, e);
        match e {
            RecEvent::Motion(dx, mag) => {
                if g.recording {
                    assert(g1.window.drop_last() =~= g.window);
                }
            },
            RecEvent::Toggle => {
                if !g.recording {
                    assert(sum_dx(Seq::<RecEvent>::empty()) == 0);
                    assert(sum_mag(Seq::<RecEvent>::empty()) == 0);
                }
            },
            _ => {},
        }
        lemma_recording_gate(s1, g1, evs.subrange(1, evs.len() as int));
    }
}

/// The recording law from a fresh start: a new recorder's sums equal the
/// sums over the current recording window for every event sequence.
pub proof fn lemma_recording_gate_from_start(evs: Seq<RecEvent>)
    requires
        forall|i: int|
            0 <= i < evs.len() ==> (evs[i] matches RecEvent::Motion(_, _) || evs[i]
                == RecEvent::Toggle),
    ensures
        rec_run(RecView { x: 0, abs: 0, recording: false }, evs).x == sum_dx(
            gate_run(GateView { recording: false, window: Seq::empty() }, evs).window,
        ),
        rec_run(RecView { x: 0, abs: 0, recording: false }, evs).abs == sum_mag(
            gate_run(GateView { recording: false, window: Seq::empty() }, evs).window,
        ),
{
    lemma_recording_gate(
        RecView { x: 0, abs: 0, recording: false },
        GateView { recording: false, window: Seq::empty() },
        evs,
    );
}

/// Toggle-reset accumulator: sums are frozen while recording is off and
/// restart from zero when it turns on.
pub struct MotionRecorder {
    x: i64,
    abs: i64,
    recording: bool,
}

impl View for MotionRecorder {
    type V = RecView;

    closed spec fn view(&self) -> RecView {
        RecView { x: self.x as int, abs: self.abs as int, recording: self.recording }
    }
}

impl MotionRecorder {
    /// The absolute sum never goes negative.
    pub open spec fn wf(self) -> bool {
        self@.abs >= 0
    }

    /// A fresh recorder: both sums zero, gate closed.
    pub fn new() -> (r: MotionRecorder)
        ensures
            r@ == (RecView { x: 0, abs: 0, recording: false }),
            r.wf(),
    {
        MotionRecorder { x: 0, abs: 0, recording: false }
    }

    pub fn x_count(&self) -> (r: i64)
        ensures
            r as int == self@.x,
    {
        self.x
    }

    pub fn abs_count(&self) -> (r: i64)
        ensures
            r as int == self@.abs,
    {
        self.abs
    }

    pub fn is_recording(&self) -> (r: bool)
        ensures
            r == self@.recording,
    {
        self.recording
    }

    /// Feeds one attributed motion sample through the recording gate.
    pub fn record_motion(&mut self, dx: i64, mag: i64)
        requires
            old(self).wf(),
            mag >= 0,
            old(self)@.recording ==> fits_i64(old(self)@.x + dx),
            old(self)@.recording ==> fits_i64(old(self)@.abs + mag),
        ensures
            final(self)@ == rec_step(old(self)@, RecEvent::Motion(dx, mag)),
            final(self).wf(),
    {
        if self.recording {
            self.x = self.x + dx;
            self.abs = self.abs + mag;
        }
    }

    /// Toggles recording; turning it on restarts both sums from zero.
    pub fn toggle_recording(&mut self)
        requires
            old(self).wf(),
        ensures
            final(self)@ == rec_step(old(self)@, RecEvent::Toggle),
            final(self).wf(),
    {
        if !self.recording {
            self.x = 0;
            self.abs = 0;
        }
        self.recording = !self.recording;
    }

    /// Zeroes the horizontal sum.
    pub fn reset_x(&mut self)
        requires
            old(self).wf(),
        ensures
            final(self)@ == rec_step(old(self)@, RecEvent::ResetX),
            final(self).wf(),
    {
        self.x = 0;
    }

    /// Zeroes the absolute sum.
    pub fn reset_abs(&mut self)
        requires
            old(self).wf(),
        ensures
            final(self)@ == rec_step(old(self)@, RecEvent::ResetAbs),
            final(self).wf(),
    {
        self.abs = 0;
    }
}

/// Spec-level state of the baseline recorder.
pub struct SessionView {
    pub total_x: int,
    pub total_abs: int,
    pub base_x: int,
    pub base_abs: int,
    pub last_x: int,
    pub last_abs: int,
    pub recording: bool,
}

/// Baseline accumulator: integrates every sample from construction on, and
/// measures a recording window as live total minus the baseline snapshot
/// taken when the window opened; a closed window shows its frozen span.
pub struct SessionRecorder {
    total_x: i64,
    total_abs: i64,
    base_x: i64,
    base_abs: i64,
    last_x: i64,
    last_abs: i64,
    recording: bool,
}

impl View for SessionRecorder {
    type V = SessionView;

    closed spec fn view(&self) -> SessionView {
        SessionView {
            total_x: self.total_x as int,
            total_abs: self.total_abs as int,
            base_x: self.base_x as int,
            base_abs: self.base_abs as int,
            last_x: self.last_x as int,
            last_abs: self.last_abs as int,
            recording: self.recording,
        }
    }
}

impl SessionRecorder {
    pub fn new() -> (r: SessionRecorder)
        ensures
            r@ == (SessionView {
                total_x: 0,
                total_abs: 0,
                base_x: 0,
                base_abs: 0,
                last_x: 0,
                last_abs: 0,
                recording: false,
            }),
    {
        SessionRecorder {
            total_x: 0,
            total_abs: 0,
            base_x: 0,
            base_abs: 0,
            last_x: 0,
            last_abs: 0,
            recording: false,
        }
    }

    /// Integrates one motion sample; the totals are never gated or reset.
    pub fn integrate(&mut self, dx: i64, mag: i64)
        requires
            mag >= 0,
            fits_i64(old(self)@.total_x + dx),
            fits_i64(old(self)@.total_abs + mag),
        ensures
            final(self)@ == (SessionView {
                total_x: old(self)@.total_x + dx,
                total_abs: old(self)@.total_abs + mag,
                ..old(self)@
            }),
    {
        self.total_x = self.total_x + dx;
        self.total_abs = self.total_abs + mag;
    }

    /// Opens a recording window: snapshots the totals as the new baseline.
    pub fn start_window(&mut self)
        ensures
            final(self)@ == (SessionView {
                base_x: old(self)@.total_x,
                base_abs: old(self)@.total_abs,
                recording: true,
                ..old(self)@
            }),
    {
        self.base_x = self.total_x;
        self.base_abs = self.total_abs;
        self.recording = true;
    }

    /// Closes the window and freezes its span as the last measurement.
    pub fn stop_window(&mut self)
        requires
            fits_i64(old(self)@.total_x - old(self)@.base_x),
            fits_i64(old(self)@.total_abs - old(self)@.base_abs),
        ensures
            final(self)@ == (SessionView {
                last_x: old(self)@.total_x - old(self)@.base_x,
                last_abs: old(self)@.total_abs - old(self)@.base_abs,
                recording: false,
                ..old(self)@
            }),
    {
        self.last_x = self.total_x - self.base_x;
        self.last_abs = self.total_abs - self.base_abs;
        self.recording = false;
    }

    /// Resets the open window: snapshots the current totals as the new
    /// baseline, so the measured span restarts at zero.
    pub fn reset_window(&mut self)
        ensures
            final(self)@ == (SessionView {
                base_x: old(self)@.total_x,
                base_abs: old(self)@.total_abs,
                ..old(self)@
            }),
    {
        self.base_x = self.total_x;
        self.base_abs = self.total_abs;
    }

    /// The horizontal span shown to the user: live while recording, else the
    /// frozen last window.
    pub fn value_x(&self) -> (r: i64)
        requires
            self@.recording ==> fits_i64(self@.total_x - self@.base_x),
        ensures
            self@.recording ==> r as int == self@.total_x - self@.base_x,
            !self@.recording ==> r as int == self@.last_x,
    {
        if self.recording {
            self.total_x - self.base_x
        } else {
            self.last_x
        }
    }

    /// The absolute span shown to the user.
    pub fn value_abs(&self) -> (r: i64)
        requires
            self@.recording ==> fits_i64(self@.total_abs - self@.base_abs),
        ensures
            self@.recording ==> r as int == self@.total_abs - self@.base_abs,
            !self@.recording ==> r as int == self@.last_abs,
    {
        if self.recording {
            self.total_abs - self.base_abs
        } else {
            self.last_abs
        }
    }
}

} // verus!
