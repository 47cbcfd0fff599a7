//! The evaluation orchestrator.
//!
//! Once per UI tick the host asks [`Bridge::decide`] what script work the
//! tick needs: a full reload (source text changed, an explicit re-run was
//! requested, or nothing was ever evaluated), a redraw only (a control value
//! changed, or no primitives are on screen), or nothing at all.
//!
//! The host shell owns the script engine, so the phases of a tick are driven
//! from outside against this protocol:
//!
//! * full reload: [`Bridge::begin_reload`]; evaluate the source, routing
//!   declarations from `setup` into `staging_controls` and script output
//!   into `log`; then [`Bridge::fail_load`] on a load error or
//!   [`Bridge::finish_setup`] with the outcome of the `setup()` call.  Only
//!   a successful setup promotes the staged controls; any failure keeps the
//!   last good controls and primitives on screen.
//! * redraw: [`Bridge::begin_redraw`] hands out the global bindings to
//!   inject and empties the staging frame; `draw()`'s geometry calls fill
//!   `staging_frame`; [`Bridge::finish_redraw`] swaps the staged frame into
//!   view on success and discards it on a draw error, so a failed draw never
//!   shows a half-built frame.
//!
//! The redraw phase never touches the control registry: a control value
//! survives any number of redraws and is replaced only by a successful
//! `setup` re-run.
//!
//! The source counts as evaluated from the moment a reload starts, whether
//! or not it loads, so a broken script is reported once and not retried on
//! every following tick.

use vstd::prelude::*;
use crate::controls::{Registry, ControlValue, control_name, control_value};
use crate::diag::{DiagLog, LogKind};
use crate::sampler::Frame;

verus! {

/// What work the current tick needs.
#[derive(Clone, Copy, Debug, PartialEq, Eq, Structural)]
pub enum TickState {
    /// No script work this tick.
    Idle,
    /// Re-bind, re-evaluate the source and run `setup`, then redraw.
    NeedsFullReload,
    /// Re-inject control values and run `draw` only.
    NeedsRedrawOnly,
}

/// The reactive core: script-source state, control registry, frame storage
/// and diagnostics log, with the tick state machine over them.
pub struct Bridge {
    /// The script text of the last evaluation attempt.
    pub last_source: String,
    /// Whether any evaluation attempt happened yet.
    pub evaluated: bool,
    /// The live controls: what the UI renders and the script reads.
    pub controls: Registry,
    /// Controls declared by the `setup` run in progress.
    pub staging_controls: Registry,
    /// The primitives currently on screen.
    pub frame: Frame,
    /// The primitives the `draw` run in progress is emitting.
    pub staging_frame: Frame,
    /// Captured script output and evaluation errors.
    pub log: DiagLog,
}

impl Bridge {
    /// A bridge that has evaluated nothing yet: first tick forces a reload.
    pub fn new() -> (b: Bridge)
        ensures
            !b.evaluated,
            b.last_source@ == Seq::<char>::empty(),
            b.controls.items@.len() == 0,
            b.staging_controls.items@.len() == 0,
            b.frame.is_empty_spec(),
            b.staging_frame.is_empty_spec(),
            b.log.entries@.len() == 0,
    {
        Bridge {
            last_source: String::new(),
            evaluated: false,
            controls: Registry::new(),
            staging_controls: Registry::new(),
            frame: Frame::new(),
            staging_frame: Frame::new(),
            log: DiagLog::new(),
        }
    }

    /// The tick decision as a function of the bridge state and the tick's
    /// triggers.
    pub open spec fn decide_spec(
        self,
        src: Seq<char>,
        rerun: bool,
        control_changed: bool,
    ) -> TickState {
        if src != self.last_source@ || rerun || !self.evaluated {
            TickState::NeedsFullReload
        } else if control_changed || self.frame.is_empty_spec() {
            TickState::NeedsRedrawOnly
        } else {
            TickState::Idle
        }
    }

    /// Decide what this tick needs: a source change, an explicit re-run
    /// request or a never-evaluated state forces a full reload; otherwise a
    /// control edit or an empty visible frame forces a redraw; otherwise
    /// nothing runs.
    pub fn decide(&self, current_source: &String, rerun: bool, control_changed: bool) -> (s:
        TickState)
        ensures
            s == self.decide_spec(current_source@, rerun, control_changed),
    {
        if !(*current_source == self.last_source) || rerun || !self.evaluated {
            TickState::NeedsFullReload
        } else if control_changed || self.frame.is_empty() {
            TickState::NeedsRedrawOnly
        } else {
            TickState::Idle
        }
    }

    /// Start a full reload of `current_source`: remember it as the evaluated
    /// source, clear the diagnostics log and ready an empty staging registry
    /// for the declarations of the coming `setup` run.  The live controls
    /// and the visible frame stay untouched until the reload succeeds.
    pub fn begin_reload(&mut self, current_source: String)
        ensures
            final(self).last_source@ == current_source@,
            final(self).evaluated,
            final(self).log.entries@.len() == 0,
            final(self).staging_controls.items@.len() == 0,
            final(self).controls.items@ == old(self).controls.items@,
            final(self).frame == old(self).frame,
            final(self).staging_frame == old(self).staging_frame,
    {
        self.last_source = current_source;
        self.evaluated = true;
        self.log.clear();
        self.staging_controls = Registry::new();
    }

    /// The source failed to parse or load: record the error as a diagnostic
    /// and abort the reload.  The previously declared controls and the
    /// previously rendered primitives stay exactly as they were, so a typo
    /// never blanks the screen.
    pub fn fail_load(&mut self, error: String)
        ensures
            final(self).log.entries@.len() == old(self).log.entries@.len() + 1,
            forall|i: int| 0 <= i < old(self).log.entries@.len()
                ==> final(self).log.entries@[i] == old(self).log.entries@[i],
            final(self).log.entries@.last().kind == LogKind::Stderr,
            final(self).log.entries@.last().message@ == error@,
            final(self).controls.items@ == old(self).controls.items@,
            final(self).frame == old(self).frame,
            final(self).staging_frame == old(self).staging_frame,
            final(self).last_source == old(self).last_source,
            final(self).evaluated == old(self).evaluated,
    {
        self.log.push_stderr(error);
    }

    /// Conclude the `setup()` run of a reload.  On success the staged
    /// declarations replace the control registry wholesale and the tick must
    /// fall through into a redraw (the returned flag).  On a setup exception
    /// the error is routed to the diagnostics sink and the last good
    /// controls and primitives stay.
    pub fn finish_setup(&mut self, setup_error: Option<String>) -> (proceed: bool)
        ensures
            proceed == (setup_error is None),
            final(self).frame == old(self).frame,
            final(self).last_source == old(self).last_source,
            final(self).evaluated == old(self).evaluated,
            setup_error is None ==> {
                &&& final(self).controls.items@ == old(self).staging_controls.items@
                &&& final(self).staging_controls.items@.len() == 0
                &&& final(self).log == old(self).log
                &&& final(self).staging_frame == old(self).staging_frame
            },
            setup_error matches Some(msg) ==> {
                &&& final(self).controls.items@ == old(self).controls.items@
                &&& final(self).log.entries@.len() == old(self).log.entries@.len() + 1
                &&& (forall|i: int| 0 <= i < old(self).log.entries@.len()
                    ==> final(self).log.entries@[i] == old(self).log.entries@[i])
                &&& final(self).log.entries@.last().kind == LogKind::Stderr
                &&& final(self).log.entries@.last().message@ == msg@
                &&& final(self).staging_frame == old(self).staging_frame
            },
    {
        match setup_error {
            Option::None => {
                core::mem::swap(&mut self.controls, &mut self.staging_controls);
                self.staging_controls = Registry::new();
                true
            },
            Option::Some(msg) => {
                self.log.push_stderr(msg);
                false
            },
        }
    }

    /// Start a redraw: every control's current value is handed out as the
    /// global bindings to push into the script, and the staging frame is
    /// emptied for `draw`'s geometry calls.  Neither the control registry
    /// nor the visible frame changes: a redraw can never alter a
    /// user-adjusted control value.
    pub fn begin_redraw(&mut self) -> (bindings: Vec<(String, ControlValue)>)
        ensures
            bindings@.len() == old(self).controls.items@.len(),
            forall|i: int| 0 <= i < old(self).controls.items@.len() ==> {
                &&& (#[trigger] bindings@[i]).0@ == control_name(old(self).controls.items@[i])
                &&& bindings@[i].1 == control_value(old(self).controls.items@[i])
            },
            final(self).staging_frame.is_empty_spec(),
            final(self).controls.items@ == old(self).controls.items@,
            final(self).frame == old(self).frame,
            final(self).log == old(self).log,
            final(self).staging_controls == old(self).staging_controls,
            final(self).last_source == old(self).last_source,
            final(self).evaluated == old(self).evaluated,
    {
        let bindings = self.controls.bindings();
        self.staging_frame.clear();
        bindings
    }

    /// Conclude a redraw.  On success the staged frame becomes the visible
    /// frame in one swap, so the renderer only ever sees complete frames.
    /// On a draw exception the staged, possibly half-built frame is
    /// discarded, the previously rendered primitives stay, and the error is
    /// routed to the diagnostics sink.  The control registry is untouched
    /// either way.
    pub fn finish_redraw(&mut self, draw_error: Option<String>)
        ensures
            final(self).controls.items@ == old(self).controls.items@,
            final(self).staging_controls == old(self).staging_controls,
            final(self).last_source == old(self).last_source,
            final(self).evaluated == old(self).evaluated,
            final(self).staging_frame.is_empty_spec(),
            draw_error is None ==> {
                &&& final(self).frame == old(self).staging_frame
                &&& final(self).log == old(self).log
            },
            draw_error matches Some(msg) ==> {
                &&& final(self).frame == old(self).frame
                &&& final(self).log.entries@.len() == old(self).log.entries@.len() + 1
                &&& (forall|i: int| 0 <= i < old(self).log.entries@.len()
                    ==> final(self).log.entries@[i] == old(self).log.entries@[i])
                &&& final(self).log.entries@.last().kind == LogKind::Stderr
                &&& final(self).log.entries@.last().message@ == msg@
            },
    {
        match draw_error {
            Option::None => {
                core::mem::swap(&mut self.frame, &mut self.staging_frame);
                self.staging_frame.clear();
            },
            Option::Some(msg) => {
                self.staging_frame.clear();
                self.log.push_stderr(msg);
            },
        }
    }

    /// A tick decides `Idle` exactly in the steady state: the source on
    /// screen is the one last evaluated, no re-run was requested, no control
    /// value changed, and a non-empty frame is already rendered.  An `Idle`
    /// tick runs no script work at all, so the state — and with it every
    /// output and the decision of every following steady tick — stays
    /// exactly as it is.
    pub proof fn lemma_steady_state_idle(
        self,
        src: Seq<char>,
        rerun: bool,
        control_changed: bool,
    )
        ensures
            self.decide_spec(src, rerun, control_changed) == TickState::Idle <==> {
                &&& src == self.last_source@
                &&& !rerun
                &&& self.evaluated
                &&& !control_changed
                &&& !self.frame.is_empty_spec()
            },
    {
    }
}

} // verus!
