use rumble::controller::{
    ControlAction, ControlPhase, Controller, RemovalEvent, SubmitEvent, UploadEvent, VibrateError,
};
use rumble::effect::{Effect, PlayEvent, Replay, Rumble, Trigger};

fn expected_effect(length: u16, interval: u16) -> Effect {
    Effect {
        effect_type: 0x50,
        id: -1,
        direction: 0,
        trigger: Trigger { interval: 0, button: 0 },
        replay: Replay { length, delay: interval },
        rumble: Rumble { strong: 0xffff, weak: 0 },
    }
}

#[test]
fn full_run_reports_success() {
    let mut c = Controller::new(100, 50, 3);
    let a = c.start();
    assert_eq!(a, ControlAction::UploadEffect { effect: expected_effect(100, 50) });

    let a = c.on_upload(UploadEvent::Completed { id: 2 });
    assert_eq!(
        a,
        ControlAction::SubmitPlay { event: PlayEvent { event_type: 0x15, code: 2, value: 3 } }
    );

    let a = c.on_submit(SubmitEvent::Submitted);
    assert_eq!(a, ControlAction::Wait { millis: 450 });

    let a = c.on_wait_done();
    assert_eq!(a, ControlAction::RemoveEffect { effect_id: 2 });

    let a = c.on_removal(RemovalEvent::Removed);
    assert_eq!(a, ControlAction::Finish { outcome: Ok(()), removal_failure: None });
    assert_eq!(
        c.phase,
        ControlPhase::Finished { outcome: Ok(()), removal_failure: None }
    );
}

#[test]
fn wait_is_zero_for_zero_inputs() {
    let mut c = Controller::new(0, 0, 5);
    c.start();
    c.on_upload(UploadEvent::Completed { id: 0 });
    let a = c.on_submit(SubmitEvent::Submitted);
    assert_eq!(a, ControlAction::Wait { millis: 0 });
}

#[test]
fn wait_is_length_for_single_pulse() {
    let mut c = Controller::new(1000, 0, 1);
    c.start();
    c.on_upload(UploadEvent::Completed { id: 0 });
    let a = c.on_submit(SubmitEvent::Submitted);
    assert_eq!(a, ControlAction::Wait { millis: 1000 });
}

#[test]
fn wait_is_exact_for_largest_inputs() {
    let mut c = Controller::new(65535, 65535, 65535);
    c.start();
    c.on_upload(UploadEvent::Completed { id: 0 });
    let a = c.on_submit(SubmitEvent::Submitted);
    assert_eq!(a, ControlAction::Wait { millis: (65535u64 + 65535u64) * 65535u64 });
}

#[test]
fn wait_duration_formula() {
    assert_eq!(rumble::effect::wait_duration_ms(100, 50, 3), 450);
    assert_eq!(rumble::effect::wait_duration_ms(0, 0, 5), 0);
    assert_eq!(rumble::effect::wait_duration_ms(1000, 0, 1), 1000);
    assert_eq!(rumble::effect::wait_duration_ms(7, 3, 0), 0);
}

#[test]
fn upload_failure_short_circuits() {
    let mut c = Controller::new(100, 50, 3);
    c.start();
    let a = c.on_upload(UploadEvent::Failed { os_error: 5 });
    assert_eq!(
        a,
        ControlAction::Finish {
            outcome: Err(VibrateError::UploadFailed { os_error: 5 }),
            removal_failure: None,
        }
    );
    // The run is over: no play write, wait, or removal was ever asked for.
    assert!(matches!(c.phase, ControlPhase::Finished { .. }));
}

#[test]
fn negative_id_reports_invalid_effect_id() {
    let mut c = Controller::new(100, 50, 3);
    c.start();
    let a = c.on_upload(UploadEvent::Completed { id: -1 });
    assert_eq!(
        a,
        ControlAction::Finish {
            outcome: Err(VibrateError::InvalidEffectId),
            removal_failure: None,
        }
    );
    assert!(matches!(c.phase, ControlPhase::Finished { .. }));
}

#[test]
fn submit_failure_reports_submit_failed() {
    let mut c = Controller::new(100, 50, 3);
    c.start();
    c.on_upload(UploadEvent::Completed { id: 1 });
    let a = c.on_submit(SubmitEvent::Failed { os_error: 32 });
    assert_eq!(
        a,
        ControlAction::Finish {
            outcome: Err(VibrateError::SubmitFailed { os_error: 32 }),
            removal_failure: None,
        }
    );
}

#[test]
fn removal_failure_keeps_success() {
    let mut c = Controller::new(100, 50, 3);
    c.start();
    c.on_upload(UploadEvent::Completed { id: 1 });
    c.on_submit(SubmitEvent::Submitted);
    c.on_wait_done();
    let a = c.on_removal(RemovalEvent::Failed { os_error: 19 });
    assert_eq!(a, ControlAction::Finish { outcome: Ok(()), removal_failure: Some(19) });
}

#[test]
fn upload_writes_back_only_the_id() {
    let mut c = Controller::new(123, 45, 6);
    let a = c.start();
    let before = match a {
        ControlAction::UploadEffect { effect } => effect,
        other => panic!("expected an upload action, got {other:?}"),
    };
    assert_eq!(before, expected_effect(123, 45));

    c.on_upload(UploadEvent::Completed { id: 9 });
    let after = match c.phase {
        ControlPhase::AwaitSubmit { effect } => effect,
        other => panic!("expected to await the play write, got {other:?}"),
    };
    assert_eq!(after.id, 9);
    assert_eq!(after.effect_type, before.effect_type);
    assert_eq!(after.direction, before.direction);
    assert_eq!(after.trigger, before.trigger);
    assert_eq!(after.replay, before.replay);
    assert_eq!(after.rumble, before.rumble);
}
