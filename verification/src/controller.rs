//! The effect controller: upload, play, wait, remove.
//!
//! The controller is a state machine over one open device handle. The
//! verified library makes every decision of the protocol; the unverified
//! driver loop only carries out the returned [`ControlAction`] against the
//! device (the upload ioctl, the play write, the sleep, the removal ioctl)
//! and reports what happened as the next event. Each step is a hard gate on
//! the next: a failed upload or play write finishes the run at once, while a
//! failed removal is only recorded as a warning because playback has already
//! succeeded.

use vstd::prelude::*;

use crate::effect::{
    spec_build_effect, spec_build_play_event, spec_wait_millis, Effect, PlayEvent,
};

verus! {

/// Why a rumble session failed.
#[derive(Clone, Copy, Debug, PartialEq, Eq)]
pub enum VibrateError {
    /// The upload ioctl itself failed with this OS error.
    UploadFailed { os_error: i32 },
    /// The upload ioctl succeeded but the kernel left a negative effect id.
    InvalidEffectId,
    /// Writing the play request to the device failed with this OS error.
    SubmitFailed { os_error: i32 },
}

/// What the driver loop must do next.
#[derive(Clone, Copy, Debug, PartialEq, Eq)]
pub enum ControlAction {
    /// Upload this effect descriptor to the device.
    UploadEffect { effect: Effect },
    /// Write this play request to the device.
    SubmitPlay { event: PlayEvent },
    /// Block for this many milliseconds while the effect plays out.
    Wait { millis: u64 },
    /// Remove the effect with this id from the device.
    RemoveEffect { effect_id: u16 },
    /// The run is over; report the outcome, and the removal failure as a
    /// warning if there was one.
    Finish { outcome: Result<(), VibrateError>, removal_failure: Option<i32> },
}

/// What the upload ioctl did.
#[derive(Clone, Copy, Debug, PartialEq, Eq)]
pub enum UploadEvent {
    /// The ioctl returned success; `id` is the effect id the kernel wrote
    /// back into the descriptor.
    Completed { id: i16 },
    /// The ioctl failed with this OS error.
    Failed { os_error: i32 },
}

/// What the play-request write did.
#[derive(Clone, Copy, Debug, PartialEq, Eq)]
pub enum SubmitEvent {
    /// The write was accepted by the device.
    Submitted,
    /// The write failed with this OS error.
    Failed { os_error: i32 },
}

/// What the removal ioctl did.
#[derive(Clone, Copy, Debug, PartialEq, Eq)]
pub enum RemovalEvent {
    /// The effect was removed.
    Removed,
    /// The ioctl failed with this OS error.
    Failed { os_error: i32 },
}

/// Where the controller stands in the protocol.
#[derive(Clone, Copy, Debug, PartialEq, Eq)]
pub enum ControlPhase {
    /// Nothing has been asked of the device yet.
    Ready,
    /// The descriptor is being uploaded.
    AwaitUpload { effect: Effect },
    /// The play request for the uploaded effect is being written.
    AwaitSubmit { effect: Effect },
    /// Playback is running; the driver loop is waiting it out.
    AwaitWait { effect: Effect },
    /// The effect is being removed.
    AwaitRemoval { effect: Effect },
    /// The run is over.
    Finished { outcome: Result<(), VibrateError>, removal_failure: Option<i32> },
}

/// One rumble session: `count` vibrations of `length` ms with `interval` ms
/// between them, against a single open device handle.
#[derive(Clone, Copy, Debug, PartialEq, Eq)]
pub struct Controller {
    pub length: u16,
    pub interval: u16,
    pub count: u16,
    pub phase: ControlPhase,
}

impl Controller {
    /// The descriptor in flight matches the session and, once uploaded, has
    /// a non-negative kernel-assigned id.
    pub open spec fn wf(self) -> bool {
        &&& self.phase matches ControlPhase::AwaitUpload { effect } ==> effect
            == spec_build_effect(self.length, self.interval)
        &&& self.phase matches ControlPhase::AwaitSubmit { effect } ==> effect.id >= 0
        &&& self.phase matches ControlPhase::AwaitWait { effect } ==> effect.id >= 0
        &&& self.phase matches ControlPhase::AwaitRemoval { effect } ==> effect.id >= 0
    }

    /// Make a controller for one session; no action has been taken yet.
    pub fn new(length: u16, interval: u16, count: u16) -> (c: Controller)
        ensures
            c == (Controller { length, interval, count, phase: ControlPhase::Ready }),
            c.wf(),
    {
        Controller { length, interval, count, phase: ControlPhase::Ready }
    }

    /// Begin the session: build the descriptor and ask for its upload.
    pub fn start(&mut self) -> (a: ControlAction)
        requires
            old(self).phase is Ready,
        ensures
            (*final(self), a) == spec_start(*old(self)),
            final(self).wf(),
    {
        let effect = crate::effect::build_effect(self.length, self.interval);
        self.phase = ControlPhase::AwaitUpload { effect };
        ControlAction::UploadEffect { effect }
    }

    /// Decide what follows the upload ioctl.
    ///
    /// An ioctl failure finishes the run with `UploadFailed`; a negative id
    /// written back by the kernel finishes it with `InvalidEffectId`; in
    /// either case nothing is written to the device and no wait happens. On
    /// success only the descriptor's id changes, and the play request for
    /// that id is asked for next.
    pub fn on_upload(&mut self, ev: UploadEvent) -> (a: ControlAction)
        requires
            old(self).wf(),
            old(self).phase is AwaitUpload,
        ensures
            (*final(self), a) == spec_on_upload(*old(self), ev),
            final(self).wf(),
    {
        match ev {
            UploadEvent::Failed { os_error } => self.finish(
                Err(VibrateError::UploadFailed { os_error }),
                None,
            ),
            UploadEvent::Completed { id } => {
                if id < 0 {
                    self.finish(Err(VibrateError::InvalidEffectId), None)
                } else {
                    let effect = match self.phase {
                        ControlPhase::AwaitUpload { effect } => effect,
                        _ => vstd::pervasive::unreached(),
                    };
                    let uploaded = Effect { id, ..effect };
                    self.phase = ControlPhase::AwaitSubmit { effect: uploaded };
                    ControlAction::SubmitPlay {
                        event: crate::effect::build_play_event(id, self.count),
                    }
                }
            },
        }
    }

    /// Decide what follows the play-request write.
    ///
    /// A write failure finishes the run with `SubmitFailed`; the uploaded
    /// effect is left in place and no wait happens. On success the driver
    /// loop is asked to wait out the whole playback,
    /// `(length + interval) * count` milliseconds.
    pub fn on_submit(&mut self, ev: SubmitEvent) -> (a: ControlAction)
        requires
            old(self).wf(),
            old(self).phase is AwaitSubmit,
        ensures
            (*final(self), a) == spec_on_submit(*old(self), ev),
            final(self).wf(),
    {
        match ev {
            SubmitEvent::Failed { os_error } => self.finish(
                Err(VibrateError::SubmitFailed { os_error }),
                None,
            ),
            SubmitEvent::Submitted => {
                let effect = match self.phase {
                    ControlPhase::AwaitSubmit { effect } => effect,
                    _ => vstd::pervasive::unreached(),
                };
                self.phase = ControlPhase::AwaitWait { effect };
                ControlAction::Wait {
                    millis: crate::effect::wait_duration_ms(
                        self.length,
                        self.interval,
                        self.count,
                    ),
                }
            },
        }
    }

    /// The wait has elapsed; ask for the effect's removal.
    pub fn on_wait_done(&mut self) -> (a: ControlAction)
        requires
            old(self).wf(),
            old(self).phase is AwaitWait,
        ensures
            (*final(self), a) == spec_on_wait_done(*old(self)),
            final(self).wf(),
    {
        let effect = match self.phase {
            ControlPhase::AwaitWait { effect } => effect,
            _ => vstd::pervasive::unreached(),
        };
        self.phase = ControlPhase::AwaitRemoval { effect };
        ControlAction::RemoveEffect { effect_id: crate::wire::u16_of_i16(effect.id) }
    }

    /// Decide what follows the removal ioctl.
    ///
    /// Playback already succeeded, so the outcome is success either way; a
    /// removal failure is only carried along as a warning.
    pub fn on_removal(&mut self, ev: RemovalEvent) -> (a: ControlAction)
        requires
            old(self).wf(),
            old(self).phase is AwaitRemoval,
        ensures
            (*final(self), a) == spec_on_removal(*old(self), ev),
            final(self).wf(),
    {
        match ev {
            RemovalEvent::Removed => self.finish(Ok(()), None),
            RemovalEvent::Failed { os_error } => self.finish(Ok(()), Some(os_error)),
        }
    }

    /// Enter the final phase and report the outcome.
    fn finish(&mut self, outcome: Result<(), VibrateError>, removal_failure: Option<i32>) -> (a:
        ControlAction)
        ensures
            *final(self) == (Controller {
                phase: ControlPhase::Finished { outcome, removal_failure },
                ..*old(self)
            }),
            a == (ControlAction::Finish { outcome, removal_failure }),
    {
        self.phase = ControlPhase::Finished { outcome, removal_failure };
        ControlAction::Finish { outcome, removal_failure }
    }
}

/// Transition out of `Ready`: the session's descriptor goes up.
pub open spec fn spec_start(c: Controller) -> (Controller, ControlAction) {
    let effect = spec_build_effect(c.length, c.interval);
    (
        Controller { phase: ControlPhase::AwaitUpload { effect }, ..c },
        ControlAction::UploadEffect { effect },
    )
}

/// Transition out of `AwaitUpload`, as [`Controller::on_upload`] describes.
pub open spec fn spec_on_upload(c: Controller, ev: UploadEvent) -> (Controller, ControlAction) {
    match ev {
        UploadEvent::Failed { os_error } => spec_finish(
            c,
            Err(VibrateError::UploadFailed { os_error }),
            None,
        ),
        UploadEvent::Completed { id } => if id < 0 {
            spec_finish(c, Err(VibrateError::InvalidEffectId), None)
        } else {
            let uploaded = Effect { id, ..c.phase->AwaitUpload_effect };
            (
                Controller { phase: ControlPhase::AwaitSubmit { effect: uploaded }, ..c },
                ControlAction::SubmitPlay { event: spec_build_play_event(id, c.count) },
            )
        },
    }
}

/// Transition out of `AwaitSubmit`, as [`Controller::on_submit`] describes.
pub open spec fn spec_on_submit(c: Controller, ev: SubmitEvent) -> (Controller, ControlAction) {
    match ev {
        SubmitEvent::Failed { os_error } => spec_finish(
            c,
            Err(VibrateError::SubmitFailed { os_error }),
            None,
        ),
        SubmitEvent::Submitted => (
            Controller {
                phase: ControlPhase::AwaitWait { effect: c.phase->AwaitSubmit_effect },
                ..c
            },
            ControlAction::Wait { millis: spec_wait_millis(c.length, c.interval, c.count) as u64 },
        ),
    }
}

/// Transition out of `AwaitWait`: the uploaded effect comes down.
pub open spec fn spec_on_wait_done(c: Controller) -> (Controller, ControlAction) {
    let effect = c.phase->AwaitWait_effect;
    (
        Controller { phase: ControlPhase::AwaitRemoval { effect }, ..c },
        ControlAction::RemoveEffect { effect_id: crate::wire::spec_u16_of_i16(effect.id) },
    )
}

/// Transition out of `AwaitRemoval`, as [`Controller::on_removal`] describes.
pub open spec fn spec_on_removal(c: Controller, ev: RemovalEvent) -> (Controller, ControlAction) {
    match ev {
        RemovalEvent::Removed => spec_finish(c, Ok(()), None),
        RemovalEvent::Failed { os_error } => spec_finish(c, Ok(()), Some(os_error)),
    }
}

/// Transition into `Finished`.
pub open spec fn spec_finish(
    c: Controller,
    outcome: Result<(), VibrateError>,
    removal_failure: Option<i32>,
) -> (Controller, ControlAction) {
    (
        Controller { phase: ControlPhase::Finished { outcome, removal_failure }, ..c },
        ControlAction::Finish { outcome, removal_failure },
    )
}

/// An upload failure short-circuits the run: the controller is finished
/// with `UploadFailed` and the emitted action is neither a play write nor a
/// wait nor a removal.
pub proof fn lemma_upload_failure_short_circuits(c: Controller, os_error: i32)
    requires
        c.phase is AwaitUpload,
    ensures
        ({
            let (c2, a) = spec_on_upload(c, UploadEvent::Failed { os_error });
            &&& c2.phase == (ControlPhase::Finished {
                outcome: Err::<(), VibrateError>(VibrateError::UploadFailed { os_error }),
                removal_failure: None,
            })
            &&& a is Finish
            &&& a !is SubmitPlay
            &&& a !is Wait
            &&& a !is RemoveEffect
        }),
{
}

/// A negative effect id written back by a successful upload ioctl produces
/// `InvalidEffectId`, and no play write, wait or removal is attempted.
pub proof fn lemma_negative_id_short_circuits(c: Controller, id: i16)
    requires
        c.phase is AwaitUpload,
        id < 0,
    ensures
        ({
            let (c2, a) = spec_on_upload(c, UploadEvent::Completed { id });
            &&& c2.phase == (ControlPhase::Finished {
                outcome: Err::<(), VibrateError>(VibrateError::InvalidEffectId),
                removal_failure: None,
            })
            &&& a is Finish
            &&& a !is SubmitPlay
            &&& a !is Wait
            &&& a !is RemoveEffect
        }),
{
}

/// A removal failure does not turn the run's outcome into a failure: the
/// controller finishes with success either way, and a failure is only
/// carried along as a warning.
pub proof fn lemma_removal_failure_keeps_success(c: Controller, ev: RemovalEvent)
    requires
        c.phase is AwaitRemoval,
    ensures
        ({
            let (c2, a) = spec_on_removal(c, ev);
            &&& c2.phase matches ControlPhase::Finished { outcome, removal_failure }
            &&& outcome == Ok::<(), VibrateError>(())
            &&& a == (ControlAction::Finish { outcome, removal_failure })
            &&& (ev matches RemovalEvent::Failed { os_error } ==> removal_failure == Some(
                os_error,
            ))
            &&& (ev is Removed ==> removal_failure is None)
        }),
{
}

/// The kernel's only write-back during upload is the effect id: after a
/// successful upload the descriptor in flight carries the assigned id and
/// every other field exactly as it was built.
pub proof fn lemma_upload_preserves_descriptor(c: Controller, id: i16)
    requires
        c.phase is AwaitUpload,
        id >= 0,
    ensures
        ({
            let e = c.phase->AwaitUpload_effect;
            let (c2, a) = spec_on_upload(c, UploadEvent::Completed { id });
            &&& c2.phase matches ControlPhase::AwaitSubmit { effect }
            &&& effect.id == id
            &&& effect.effect_type == e.effect_type
            &&& effect.direction == e.direction
            &&& effect.trigger == e.trigger
            &&& effect.replay == e.replay
            &&& effect.rumble == e.rumble
            &&& a == (ControlAction::SubmitPlay { event: spec_build_play_event(id, c.count) })
        }),
{
}

/// A run in which the device accepts every step succeeds, and its actions
/// are exactly: upload the built descriptor, write the play request for the
/// assigned id and the repeat count, wait once for
/// `(length + interval) * count` milliseconds, remove the effect by its id,
/// and finish with success and no warning.
pub proof fn lemma_accepted_run_succeeds(length: u16, interval: u16, count: u16, id: i16)
    requires
        id >= 0,
    ensures
        ({
            let c0 = Controller { length, interval, count, phase: ControlPhase::Ready };
            let (c1, a1) = spec_start(c0);
            let (c2, a2) = spec_on_upload(c1, UploadEvent::Completed { id });
            let (c3, a3) = spec_on_submit(c2, SubmitEvent::Submitted);
            let (c4, a4) = spec_on_wait_done(c3);
            let (c5, a5) = spec_on_removal(c4, RemovalEvent::Removed);
            &&& a1 == (ControlAction::UploadEffect { effect: spec_build_effect(length, interval) })
            &&& a2 == (ControlAction::SubmitPlay { event: spec_build_play_event(id, count) })
            &&& a3 matches ControlAction::Wait { millis } && millis == spec_wait_millis(
                length,
                interval,
                count,
            )
            &&& a4 == (ControlAction::RemoveEffect {
                effect_id: crate::wire::spec_u16_of_i16(id),
            })
            &&& a5 == (ControlAction::Finish {
                outcome: Ok::<(), VibrateError>(()),
                removal_failure: None,
            })
            &&& c5.phase == (ControlPhase::Finished {
                outcome: Ok::<(), VibrateError>(()),
                removal_failure: None,
            })
        }),
{
    let c0 = Controller { length, interval, count, phase: ControlPhase::Ready };
    let (c1, a1) = spec_start(c0);
    let (c2, a2) = spec_on_upload(c1, UploadEvent::Completed { id });
    lemma_wait_matches_formula(c2);
}

/// A successful play write is followed by exactly one wait, of exactly
/// `(length + interval) * count` milliseconds.
pub proof fn lemma_wait_matches_formula(c: Controller)
    requires
        c.phase is AwaitSubmit,
    ensures
        ({
            let (c2, a) = spec_on_submit(c, SubmitEvent::Submitted);
            &&& c2.phase is AwaitWait
            &&& a matches ControlAction::Wait { millis }
            &&& millis == spec_wait_millis(c.length, c.interval, c.count)
        }),
{
    assert(0 <= spec_wait_millis(c.length, c.interval, c.count) <= 0x1fffe * 0xffff)
        by (nonlinear_arith)
        requires
            c.length <= 0xffff,
            c.interval <= 0xffff,
            c.count <= 0xffff,
    ;
}

} // verus!
