use futures::channel::oneshot::channel;
use sigrok::device::Channel;
use sigrok::error::{
    SR_ERR, SR_ERR_ARG, SR_ERR_BUG, SR_ERR_DEV_CLOSED, SR_ERR_MALLOC, SR_ERR_NA, SR_OK,
};
use sigrok::session::{Call, Operation, Outcome, Progress};
use sigrok::{quit_loop, Session, SigrokError, Trigger, TriggerType, Triggers};

/// Carries an operation out, giving each call the next outcome. Returns the
/// calls that were asked for and the result.
fn carry_out(mut op: Operation, outcomes: &[Outcome]) -> (Vec<Call>, Result<(), SigrokError>) {
    let mut calls = vec![];
    for outcome in outcomes {
        calls.push(op.pending());
        match op.advance(*outcome) {
            Progress::Continue(next) => op = next,
            Progress::Finished(result) => return (calls, result),
        }
    }
    panic!("the operation asked for more calls than there are outcomes");
}

fn session() -> Session {
    Session::new(SR_OK).unwrap()
}

fn one_trigger() -> Triggers {
    Triggers::new(vec![vec![Trigger {
        channel: Channel::new(0, Some(b"D0")),
        trigger_match: TriggerType::Falling,
        value: 0,
    }]])
}

const OK: Outcome = Outcome::Status(SR_OK);

#[test]
fn session_creation_follows_the_status_code() {
    assert!(Session::new(SR_OK).is_ok());
    assert_eq!(Session::new(SR_ERR).unwrap_err(), SigrokError::Generic);
    assert_eq!(Session::new(SR_ERR_ARG).unwrap_err(), SigrokError::Arg);
    assert_eq!(Session::new(77).unwrap_err(), SigrokError::Unknown);
    assert!(Session::destroyed(SR_OK));
    assert!(!Session::destroyed(SR_ERR));
}

#[test]
fn add_device_opens_then_attaches() {
    let (calls, result) = carry_out(session().add_device(), &[OK, OK]);
    assert_eq!(calls, vec![Call::DevOpen, Call::DevAdd]);
    assert_eq!(result, Ok(()));
}

#[test]
fn add_device_twice_does_not_fail() {
    let ses = session();
    let (_, first) = carry_out(ses.add_device(), &[OK, OK]);
    assert_eq!(first, Ok(()));
    // The second time the device is open already: the native library says
    // so with the generic error.
    let (calls, second) = carry_out(ses.add_device(), &[Outcome::Status(SR_ERR), OK]);
    assert_eq!(calls, vec![Call::DevOpen, Call::DevAdd]);
    assert_eq!(second, Ok(()));
}

#[test]
fn add_device_fails_on_other_open_errors() {
    let (calls, result) = carry_out(session().add_device(), &[Outcome::Status(SR_ERR_NA)]);
    assert_eq!(calls, vec![Call::DevOpen]);
    assert_eq!(result, Err(SigrokError::NA));
    let (calls, result) = carry_out(session().add_device(), &[OK, Outcome::Status(SR_ERR)]);
    assert_eq!(calls, vec![Call::DevOpen, Call::DevAdd]);
    assert_eq!(result, Err(SigrokError::Generic));
}

#[test]
fn stop_is_one_call() {
    let (calls, result) = carry_out(session().stop(), &[OK]);
    assert_eq!(calls, vec![Call::Stop]);
    assert_eq!(result, Ok(()));
    let (_, result) = carry_out(session().stop(), &[Outcome::Status(SR_ERR_DEV_CLOSED)]);
    assert_eq!(result, Err(SigrokError::DevClosed));
}

#[test]
fn start_makes_its_calls_in_order() {
    let (calls, result) = carry_out(session().start(None), &[OK; 6]);
    assert_eq!(
        calls,
        vec![
            Call::TriggerSet { install: false },
            Call::DatafeedCallbackAdd,
            Call::StoppedCallbackSet { notify: false },
            Call::Start,
            Call::Run,
            Call::DatafeedCallbackRemoveAll,
        ]
    );
    assert_eq!(result, Ok(()));
}

#[test]
fn start_fails_before_the_callback_is_registered() {
    let outcomes = [Outcome::Status(SR_ERR_ARG)];
    let (calls, result) = carry_out(session().start(None), &outcomes);
    assert_eq!(calls, vec![Call::TriggerSet { install: false }]);
    assert_eq!(result, Err(SigrokError::Arg));

    let outcomes = [OK, Outcome::Status(SR_ERR_NA)];
    let (calls, result) = carry_out(session().start(None), &outcomes);
    assert_eq!(calls, vec![Call::TriggerSet { install: false }, Call::DatafeedCallbackAdd]);
    assert_eq!(result, Err(SigrokError::NA));
}

#[test]
fn failed_start_removes_the_callback() {
    // The acquisition cannot be started.
    let outcomes = [OK, OK, OK, Outcome::Status(SR_ERR_DEV_CLOSED), OK];
    let (calls, result) = carry_out(session().start(None), &outcomes);
    assert_eq!(
        calls,
        vec![
            Call::TriggerSet { install: false },
            Call::DatafeedCallbackAdd,
            Call::StoppedCallbackSet { notify: false },
            Call::Start,
            Call::DatafeedCallbackRemoveAll,
        ]
    );
    assert_eq!(result, Err(SigrokError::DevClosed));

    // The native loop fails.
    let outcomes = [OK, OK, OK, OK, Outcome::Status(SR_ERR), OK];
    let (calls, result) = carry_out(session().start(None), &outcomes);
    assert_eq!(calls.len(), 6);
    assert_eq!(calls[4], Call::Run);
    assert_eq!(calls[5], Call::DatafeedCallbackRemoveAll);
    assert_eq!(result, Err(SigrokError::Generic));

    // The stopped-callback cannot be cleared.
    let outcomes = [OK, OK, Outcome::Status(SR_ERR_BUG), OK];
    let (calls, result) = carry_out(session().start(None), &outcomes);
    assert_eq!(calls.len(), 4);
    assert_eq!(calls[3], Call::DatafeedCallbackRemoveAll);
    assert_eq!(result, Err(SigrokError::Bug));
}

#[test]
fn the_first_failure_is_the_result_whatever_the_cleanup_gives() {
    let outcomes = [OK, OK, OK, Outcome::Status(SR_ERR_DEV_CLOSED), Outcome::Status(SR_ERR_ARG)];
    let (calls, result) = carry_out(session().start(None), &outcomes);
    assert_eq!(calls.len(), 5);
    assert_eq!(result, Err(SigrokError::DevClosed));
}

#[test]
fn a_removal_that_fails_is_not_tried_again() {
    let outcomes = [OK, OK, OK, OK, OK, Outcome::Status(-99)];
    let (calls, result) = carry_out(session().start(None), &outcomes);
    assert_eq!(calls.len(), 6);
    assert_eq!(calls[5], Call::DatafeedCallbackRemoveAll);
    assert_eq!(result, Err(SigrokError::Unknown));
}

#[test]
fn generic_error_is_only_tolerated_when_opening() {
    let outcomes = [Outcome::Status(SR_ERR)];
    let (_, result) = carry_out(session().start(None), &outcomes);
    assert_eq!(result, Err(SigrokError::Generic));
    assert_eq!(Call::DevOpen.judge(Outcome::Status(SR_ERR)), Ok(()));
    assert_eq!(Call::DevAdd.judge(Outcome::Status(SR_ERR)), Err(SigrokError::Generic));
    assert_eq!(Call::Start.judge(Outcome::Status(SR_OK)), Ok(()));
    assert_eq!(Call::MainLoopRun.judge(Outcome::Returned), Ok(()));
}

#[test]
fn start_with_cancel_makes_its_calls_in_order() {
    let outcomes = [
        OK,
        OK,
        OK,
        Outcome::Acquired(true),
        Outcome::Returned,
        Outcome::Returned,
        OK,
        Outcome::Returned,
        Outcome::Returned,
        OK,
    ];
    let triggers = one_trigger();
    let (calls, result) = carry_out(session().start_with_cancel(Some(&triggers)), &outcomes);
    assert_eq!(
        calls,
        vec![
            Call::TriggerSet { install: true },
            Call::DatafeedCallbackAdd,
            Call::Start,
            Call::MainContextAcquire,
            Call::OfferCancel,
            Call::SpawnWatcher,
            Call::StoppedCallbackSet { notify: true },
            Call::MainLoopRun,
            Call::MainContextRelease,
            Call::DatafeedCallbackRemoveAll,
        ]
    );
    assert_eq!(result, Ok(()));
}

#[test]
fn main_context_that_cannot_be_acquired() {
    let outcomes = [OK, OK, OK, Outcome::Acquired(false), OK];
    let (calls, result) = carry_out(session().start_with_cancel(None), &outcomes);
    assert_eq!(
        calls,
        vec![
            Call::TriggerSet { install: false },
            Call::DatafeedCallbackAdd,
            Call::Start,
            Call::MainContextAcquire,
            // Nothing was acquired, so nothing is released.
            Call::DatafeedCallbackRemoveAll,
        ]
    );
    assert_eq!(result, Err(SigrokError::GlibAcquireError));
}

#[test]
fn failed_cancellable_start_cleans_up() {
    // The acquisition cannot be started.
    let outcomes = [OK, OK, Outcome::Status(SR_ERR_NA), OK];
    let (calls, result) = carry_out(session().start_with_cancel(None), &outcomes);
    assert_eq!(calls.len(), 4);
    assert_eq!(calls[2], Call::Start);
    assert_eq!(calls[3], Call::DatafeedCallbackRemoveAll);
    assert_eq!(result, Err(SigrokError::NA));

    // The stopped-callback cannot be set: the main context is held by then.
    let outcomes = [
        OK,
        OK,
        OK,
        Outcome::Acquired(true),
        Outcome::Returned,
        Outcome::Returned,
        Outcome::Status(SR_ERR_ARG),
        Outcome::Returned,
        OK,
    ];
    let (calls, result) = carry_out(session().start_with_cancel(None), &outcomes);
    assert_eq!(calls.len(), 9);
    assert_eq!(calls[6], Call::StoppedCallbackSet { notify: true });
    assert_eq!(calls[7], Call::MainContextRelease);
    assert_eq!(calls[8], Call::DatafeedCallbackRemoveAll);
    assert_eq!(result, Err(SigrokError::Arg));

    // Before the callback is registered there is nothing to clean up.
    let outcomes = [OK, Outcome::Status(SR_ERR_MALLOC)];
    let (calls, result) = carry_out(session().start_with_cancel(None), &outcomes);
    assert_eq!(calls.len(), 2);
    assert_eq!(result, Err(SigrokError::Malloc));
}

#[test]
fn empty_triggers_count_as_no_trigger() {
    let ses = session();
    assert_eq!(ses.set_triggers(None), Call::TriggerSet { install: false });
    let none = Triggers::new(vec![]);
    assert_eq!(ses.set_triggers(Some(&none)), Call::TriggerSet { install: false });
    let hollow = Triggers::new(vec![vec![], vec![]]);
    assert_eq!(ses.set_triggers(Some(&hollow)), Call::TriggerSet { install: false });
    let real = one_trigger();
    assert_eq!(ses.set_triggers(Some(&real)), Call::TriggerSet { install: true });
    assert_eq!(ses.start(Some(&hollow)).pending(), Call::TriggerSet { install: false });
    assert_eq!(ses.start(Some(&real)).pending(), Call::TriggerSet { install: true });
}

#[test]
fn quit_loop_tells_the_watcher_once() {
    let (sender, mut receiver) = channel::<()>();
    let mut slot = Some(sender);
    quit_loop(&mut slot);
    assert!(slot.is_none());
    assert_eq!(receiver.try_recv(), Ok(Some(())));
    // A second notice finds the slot empty and does nothing.
    quit_loop(&mut slot);
    assert!(slot.is_none());
}

#[test]
fn quit_loop_after_the_watcher_is_gone() {
    let (sender, receiver) = channel::<()>();
    drop(receiver);
    let mut slot = Some(sender);
    quit_loop(&mut slot);
    assert!(slot.is_none());
    let mut empty = None;
    quit_loop(&mut empty);
    assert!(empty.is_none());
}
