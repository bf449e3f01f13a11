//! The application core: one context object owning the registry, the
//! recorder, the key binds and the calibration inputs, with the per-tick
//! event dispatch.
//!
//! Once per tick the host hands over every queued input event, in arrival
//! order. A pointer-motion event registers its device and, when that device
//! is the active one, runs through the recording gate. A key press walks the
//! bind actions in declared priority order; a key release, and any other
//! event kind, is ignored. After dispatch the host applies the fired
//! triggers and reads the freshly derived metrics.

use vstd::prelude::*;
use crate::calibrate::{
    compute, motion_scalar, spec_adjusted_sensitivity, spec_adjustment_ratio, spec_computed_dpi,
    spec_current_rpi, spec_inch_equivalent, spec_motion_scalar, spec_physical_distance_cm,
    spec_revolutions_per_dot, spec_rpd_unit_sens, CalibrationInputs, CalibrationOutputs,
};
use crate::keybind::{dispatch_key_press, poll_spec, press_all, cancel_spec, KeyBindState};
use crate::recorder::{rec_step, MotionRecorder, RecEvent, RecView};
use crate::registry::{observe_spec, select_spec, DeviceRegistry, RegView};
use crate::scalar::{fits_i64, Scalar};

verus! {

/// The bind action that toggles recording.
pub const BIND_RECORD: usize = 0;

/// The bind action that zeroes the horizontal sum.
pub const BIND_RESET_X: usize = 1;

/// The bind action that zeroes the absolute sum.
pub const BIND_RESET_ABS: usize = 2;

/// How many bind actions exist; their priority is their index order.
pub const BIND_COUNT: usize = 3;

/// One event polled from the input source, reduced to plain values: a
/// pointer-motion delta in fixed-point thousandths of a count with its
/// non-negative magnitude, a keyboard transition, or anything else.
#[derive(Clone, Copy, PartialEq, Eq, Structural, Debug)]
pub enum InputEvent {
    PointerMotion { device: u64, dx: i64, mag: i64 },
    Key { code: u32, pressed: bool },
    Other,
}

/// A motion event carries a non-negative magnitude.
pub open spec fn event_wf(e: InputEvent) -> bool {
    match e {
        InputEvent::PointerMotion { device, dx, mag } => mag >= 0,
        _ => true,
    }
}

/// Spec-level state of the whole core.
pub struct CoreView {
    pub reg: RegView,
    pub binds: Seq<KeyBindState>,
    pub rec: RecView,
    pub inputs: CalibrationInputs,
}

/// Both recorder sums stay representable.
pub open spec fn rec_in_range(r: RecView) -> bool {
    fits_i64(r.x) && fits_i64(r.abs)
}

/// One event dispatched through the core.
pub open spec fn tick_step(s: CoreView, e: InputEvent) -> CoreView {
    match e {
        InputEvent::PointerMotion { device, dx, mag } => {
            let reg2 = observe_spec(s.reg, device);
            let rec2 = if reg2.active == Option::Some(device) {
                rec_step(s.rec, RecEvent::Motion(dx, mag))
            } else {
                s.rec
            };
            CoreView { reg: reg2, binds: s.binds, rec: rec2, inputs: s.inputs }
        },
        InputEvent::Key { code, pressed } => {
            if pressed {
                CoreView { reg: s.reg, binds: press_all(s.binds, code), rec: s.rec, inputs: s.inputs }
            } else {
                s
            }
        },
        InputEvent::Other => s,
    }
}

/// A whole tick's events dispatched left to right.
pub open spec fn tick_run(s: CoreView, evs: Seq<InputEvent>) -> CoreView
    decreases evs.len(),
{
    if evs.len() == 0 {
        s
    } else {
        tick_run(tick_step(s, evs[0]), evs.subrange(1, evs.len() as int))
    }
}

/// Appending one event to a run is one more step.
pub proof fn lemma_tick_run_push(s: CoreView, evs: Seq<InputEvent>, e: InputEvent)
    ensures
        tick_run(s, evs.push(e)) == tick_step(tick_run(s, evs), e),
    decreases evs.len(),
{
    reveal_with_fuel(tick_run, 2);
    let p = evs.push(e);
    if evs.len() == 0 {
        assert(p[0] == e);
        assert(p.subrange(1, p.len() as int) =~= Seq::<InputEvent>::empty());
    } else {
        assert(p[0] == evs[0]);
        assert(p.subrange(1, p.len() as int) =~= evs.subrange(1, evs.len() as int).push(e));
        lemma_tick_run_push(tick_step(s, evs[0]), evs.subrange(1, evs.len() as int), e);
    }
}

/// The fired triggers applied after dispatch, in priority order: the record
/// action toggles recording, the reset actions zero one sum each, and every
/// polled edge flag is consumed.
pub open spec fn triggers_step(s: CoreView) -> CoreView {
    let p0 = poll_spec(s.binds[BIND_RECORD as int]);
    let binds0 = s.binds.update(BIND_RECORD as int, p0.1);
    let rec0 = if p0.0 {
        rec_step(s.rec, RecEvent::Toggle)
    } else {
        s.rec
    };
    let p1 = poll_spec(binds0[BIND_RESET_X as int]);
    let binds1 = binds0.update(BIND_RESET_X as int, p1.1);
    let rec1 = if p1.0 {
        rec_step(rec0, RecEvent::ResetX)
    } else {
        rec0
    };
    let p2 = poll_spec(binds1[BIND_RESET_ABS as int]);
    let binds2 = binds1.update(BIND_RESET_ABS as int, p2.1);
    let rec2 = if p2.0 {
        rec_step(rec1, RecEvent::ResetAbs)
    } else {
        rec1
    };
    CoreView { reg: s.reg, binds: binds2, rec: rec2, inputs: s.inputs }
}

/// The process-scoped context object: all mutable state of the tool.
pub struct AppCore {
    registry: DeviceRegistry,
    binds: Vec<KeyBindState>,
    recorder: MotionRecorder,
    inputs: CalibrationInputs,
}

impl View for AppCore {
    type V = CoreView;

    closed spec fn view(&self) -> CoreView {
        CoreView {
            reg: self.registry@,
            binds: self.binds@,
            rec: self.recorder@,
            inputs: self.inputs,
        }
    }
}

impl AppCore {
    pub open spec fn wf(self) -> bool {
        &&& self.wf_registry()
        &&& self.wf_recorder()
        &&& self@.binds.len() == BIND_COUNT
        &&& self@.inputs.wf()
    }

    pub closed spec fn wf_registry(self) -> bool {
        self.registry.wf()
    }

    pub closed spec fn wf_recorder(self) -> bool {
        self.recorder.wf()
    }

    /// A fresh core: nothing observed, nothing bound, gate closed, sums
    /// zero, every measurement missing, distance unit centimetres.
    pub fn new() -> (r: AppCore)
        ensures
            r@ == (CoreView {
                reg: RegView { devices: Seq::empty(), active: Option::None },
                binds: seq![
                    KeyBindState::Unbound,
                    KeyBindState::Unbound,
                    KeyBindState::Unbound,
                ],
                rec: RecView { x: 0, abs: 0, recording: false },
                inputs: CalibrationInputs {
                    configured_dpi: Scalar::Missing,
                    current_sensitivity: Scalar::Missing,
                    revolutions: Scalar::Missing,
                    target_rpi: Scalar::Missing,
                    distance_moved: Scalar::Missing,
                    distance_is_inch: false,
                },
            }),
            r.wf(),
    {
        let mut binds: Vec<KeyBindState> = Vec::new();
        binds.push(KeyBindState::Unbound);
        binds.push(KeyBindState::Unbound);
        binds.push(KeyBindState::Unbound);
        proof {
            assert(binds@ =~= seq![
                KeyBindState::Unbound,
                KeyBindState::Unbound,
                KeyBindState::Unbound,
            ]);
        }
        AppCore {
            registry: DeviceRegistry::new(),
            binds,
            recorder: MotionRecorder::new(),
            inputs: CalibrationInputs::new(),
        }
    }

    /// Dispatches one tick's events in arrival order.
    pub fn tick(&mut self, events: &Vec<InputEvent>)
        requires
            old(self).wf(),
            forall|i: int| 0 <= i < events@.len() ==> event_wf(events@[i]),
            forall|i: int|
                0 <= i <= events@.len() ==> rec_in_range(
                    tick_run(old(self)@, events@.take(i)).rec,
                ),
        ensures
            final(self)@ == tick_run(old(self)@, events@),
            final(self).wf(),
    {
        let ghost init = self@;
        let mut idx: usize = 0;
        while idx < events.len()
            invariant
                idx <= events@.len(),
                self.wf(),
                self@ == tick_run(init, events@.take(idx as int)),
                forall|i: int| 0 <= i < events@.len() ==> event_wf(events@[i]),
                forall|i: int|
                    0 <= i <= events@.len() ==> rec_in_range(tick_run(init, events@.take(i)).rec),
            decreases events@.len() - idx,
        {
            let ev = events[idx];
            proof {
                assert(events@.take(idx as int + 1) =~= events@.take(idx as int).push(ev));
                lemma_tick_run_push(init, events@.take(idx as int), ev);
                assert(tick_run(init, events@.take(idx as int + 1)) == tick_step(self@, ev));
                assert(rec_in_range(tick_step(self@, ev).rec));
                assert(event_wf(ev));
            }
            match ev {
                InputEvent::PointerMotion { device, dx, mag } => {
                    self.registry.observe(device);
                    let is_active = match self.registry.active() {
                        Some(a) => a == device,
                        None => false,
                    };
                    if is_active {
                        self.recorder.record_motion(dx, mag);
                    }
                },
                InputEvent::Key { code, pressed } => {
                    if pressed {
                        dispatch_key_press(&mut self.binds, code);
                    }
                },
                InputEvent::Other => {},
            }
            idx = idx + 1;
        }
        proof {
            assert(events@.take(events@.len() as int) =~= events@);
        }
    }

    /// Polls the three bind actions once, in priority order, and applies
    /// what fired: toggle recording, zero the horizontal sum, zero the
    /// absolute sum. Each edge is consumed by its poll.
    pub fn apply_triggers(&mut self)
        requires
            old(self).wf(),
        ensures
            final(self)@ == triggers_step(old(self)@),
            final(self).wf(),
    {
        let mut b0 = self.binds[BIND_RECORD];
        let fired0 = b0.poll_triggered();
        self.binds[BIND_RECORD] = b0;
        if fired0 {
            self.recorder.toggle_recording();
        }
        let mut b1 = self.binds[BIND_RESET_X];
        let fired1 = b1.poll_triggered();
        self.binds[BIND_RESET_X] = b1;
        if fired1 {
            self.recorder.reset_x();
        }
        let mut b2 = self.binds[BIND_RESET_ABS];
        let fired2 = b2.poll_triggered();
        self.binds[BIND_RESET_ABS] = b2;
        if fired2 {
            self.recorder.reset_abs();
        }
    }

    /// A click on the recording start/stop button: same effect as the bound
    /// key firing.
    pub fn click_recording_toggle(&mut self)
        requires
            old(self).wf(),
        ensures
            final(self)@ == (CoreView {
                reg: old(self)@.reg,
                binds: old(self)@.binds,
                rec: rec_step(old(self)@.rec, RecEvent::Toggle),
                inputs: old(self)@.inputs,
            }),
            final(self).wf(),
    {
        self.recorder.toggle_recording();
    }

    /// A click on the horizontal-sum reset button.
    pub fn click_reset_x(&mut self)
        requires
            old(self).wf(),
        ensures
            final(self)@ == (CoreView {
                reg: old(self)@.reg,
                binds: old(self)@.binds,
                rec: rec_step(old(self)@.rec, RecEvent::ResetX),
                inputs: old(self)@.inputs,
            }),
            final(self).wf(),
    {
        self.recorder.reset_x();
    }

    /// A click on the absolute-sum reset button.
    pub fn click_reset_abs(&mut self)
        requires
            old(self).wf(),
        ensures
            final(self)@ == (CoreView {
                reg: old(self)@.reg,
                binds: old(self)@.binds,
                rec: rec_step(old(self)@.rec, RecEvent::ResetAbs),
                inputs: old(self)@.inputs,
            }),
            final(self).wf(),
    {
        self.recorder.reset_abs();
    }

    /// A "bind"/"rebind" click on one action: it goes to the armed state.
    pub fn begin_bind(&mut self, action: usize)
        requires
            old(self).wf(),
            action < BIND_COUNT,
        ensures
            final(self)@ == (CoreView {
                reg: old(self)@.reg,
                binds: old(self)@.binds.update(action as int, KeyBindState::Binding),
                rec: old(self)@.rec,
                inputs: old(self)@.inputs,
            }),
            final(self).wf(),
    {
        let mut b = self.binds[action];
        b.begin_binding();
        self.binds[action] = b;
    }

    /// A "cancel" click on one action: disarms it, and nothing else.
    pub fn cancel_bind(&mut self, action: usize)
        requires
            old(self).wf(),
            action < BIND_COUNT,
        ensures
            final(self)@ == (CoreView {
                reg: old(self)@.reg,
                binds: old(self)@.binds.update(
                    action as int,
                    cancel_spec(old(self)@.binds[action as int]),
                ),
                rec: old(self)@.rec,
                inputs: old(self)@.inputs,
            }),
            final(self).wf(),
    {
        let mut b = self.binds[action];
        b.cancel_binding();
        self.binds[action] = b;
    }

    /// The bind state of one action, for rendering its controls.
    pub fn bind_state(&self, action: usize) -> (r: KeyBindState)
        requires
            self.wf(),
            action < BIND_COUNT,
        ensures
            r == self@.binds[action as int],
    {
        self.binds[action]
    }

    /// The current calibration inputs, for rendering the input fields.
    pub fn inputs(&self) -> (r: CalibrationInputs)
        ensures
            r == self@.inputs,
    {
        self.inputs
    }

    /// Replaces the calibration inputs with what the user edited.
    pub fn set_inputs(&mut self, v: CalibrationInputs)
        requires
            old(self).wf(),
            v.wf(),
        ensures
            final(self)@ == (CoreView {
                reg: old(self)@.reg,
                binds: old(self)@.binds,
                rec: old(self)@.rec,
                inputs: v,
            }),
            final(self).wf(),
    {
        self.inputs = v;
    }

    /// Honours a user selection of a known device.
    pub fn select_device(&mut self, id: u64)
        requires
            old(self).wf(),
        ensures
            final(self)@ == (CoreView {
                reg: select_spec(old(self)@.reg, id),
                binds: old(self)@.binds,
                rec: old(self)@.rec,
                inputs: old(self)@.inputs,
            }),
            final(self).wf(),
    {
        self.registry.select(id);
    }

    /// The active device, if any.
    pub fn active_device(&self) -> (r: Option<u64>)
        ensures
            r == self@.reg.active,
    {
        self.registry.active()
    }

    pub fn device_count(&self) -> (r: usize)
        ensures
            r == self@.reg.devices.len(),
    {
        self.registry.device_count()
    }

    pub fn device_at(&self, i: usize) -> (r: u64)
        requires
            i < self@.reg.devices.len(),
        ensures
            r == self@.reg.devices[i as int],
    {
        self.registry.device_at(i)
    }

    pub fn is_recording(&self) -> (r: bool)
        ensures
            r == self@.rec.recording,
    {
        self.recorder.is_recording()
    }

    /// The horizontal sum, in fixed-point thousandths of a count.
    pub fn x_motion_count(&self) -> (r: i64)
        ensures
            r as int == self@.rec.x,
    {
        self.recorder.x_count()
    }

    /// The absolute sum, in fixed-point thousandths of a count.
    pub fn abs_motion_count(&self) -> (r: i64)
        ensures
            r as int == self@.rec.abs,
    {
        self.recorder.abs_count()
    }

    /// Derives all output metrics from the current state. Pure: the state is
    /// not touched, and every metric is exactly its defining formula over
    /// the current sums and measurements.
    pub fn outputs(&self) -> (o: CalibrationOutputs)
        requires
            self.wf(),
        ensures
            o.physical_distance_cm == spec_physical_distance_cm(
                self@.inputs.distance_moved,
                self@.inputs.distance_is_inch,
            ),
            o.inch_equivalent == spec_inch_equivalent(
                spec_motion_scalar(self@.rec.x),
                self@.inputs.configured_dpi,
            ),
            o.current_rpi == spec_current_rpi(
                self@.inputs.revolutions,
                spec_motion_scalar(self@.rec.x),
                self@.inputs.configured_dpi,
            ),
            o.revolutions_per_dot == spec_revolutions_per_dot(
                self@.inputs.revolutions,
                spec_motion_scalar(self@.rec.x),
            ),
            o.revolutions_per_dot_unit_sens == spec_rpd_unit_sens(
                self@.inputs.revolutions,
                spec_motion_scalar(self@.rec.x),
                self@.inputs.current_sensitivity,
            ),
            o.adjusted_sensitivity == spec_adjusted_sensitivity(
                self@.inputs.current_sensitivity,
                self@.inputs.target_rpi,
                self@.inputs.revolutions,
                spec_motion_scalar(self@.rec.x),
                self@.inputs.configured_dpi,
            ),
            o.sensitivity_adjustment_ratio == spec_adjustment_ratio(
                self@.inputs.target_rpi,
                self@.inputs.revolutions,
                spec_motion_scalar(self@.rec.x),
                self@.inputs.configured_dpi,
            ),
            o.computed_dpi == spec_computed_dpi(
                spec_motion_scalar(self@.rec.abs),
                self@.inputs.distance_moved,
                self@.inputs.distance_is_inch,
            ),
            o.wf(),
    {
        let x = motion_scalar(self.recorder.x_count());
        let abs = motion_scalar(self.recorder.abs_count());
        compute(self.inputs, x, abs)
    }
}

} // verus!
