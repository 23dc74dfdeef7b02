use sigrok::watcher::{CancelPoll, Reaction, Signal, Watch};

/// Feeds a run of signals to a fresh watcher.
fn run(signals: &[Signal]) -> (Watch, Vec<Reaction>) {
    let mut state = Watch::new();
    let mut reactions = vec![];
    for signal in signals {
        let (next, reaction) = state.step(*signal);
        state = next;
        reactions.push(reaction);
    }
    (state, reactions)
}

fn count(reactions: &[Reaction], wanted: Reaction) -> usize {
    reactions.iter().filter(|r| **r == wanted).count()
}

#[test]
fn natural_completion_quits_at_once() {
    let (state, reactions) = run(&[Signal::Stopped]);
    assert_eq!(state, Watch::Finished);
    assert_eq!(reactions, vec![Reaction::Quit]);
}

#[test]
fn cancellation_stops_once_and_waits_for_confirmation() {
    let (state, reactions) = run(&[Signal::CancelRequested]);
    assert_eq!(state, Watch::Draining);
    assert_eq!(reactions, vec![Reaction::RequestStop]);

    let (state, reactions) = run(&[Signal::CancelRequested, Signal::Stopped]);
    assert_eq!(state, Watch::Finished);
    assert_eq!(reactions, vec![Reaction::RequestStop, Reaction::Quit]);
}

#[test]
fn cancellation_after_completion_changes_nothing() {
    let (state, reactions) = run(&[Signal::Stopped, Signal::CancelRequested]);
    assert_eq!(state, Watch::Finished);
    assert_eq!(reactions, vec![Reaction::Quit, Reaction::Wait]);
    assert!(!state.hears_cancel());
    assert_eq!(state.select(false, CancelPoll::Sent), None);
    assert_eq!(state.select(true, CancelPoll::Sent), None);
}

#[test]
fn dropped_sender_keeps_waiting_without_stopping() {
    let (state, reactions) = run(&[Signal::CancelDropped]);
    assert_eq!(state, Watch::Draining);
    assert_eq!(reactions, vec![Reaction::Wait]);
    let (state, reactions) = run(&[Signal::CancelDropped, Signal::Stopped]);
    assert_eq!(state, Watch::Finished);
    assert_eq!(reactions, vec![Reaction::Wait, Reaction::Quit]);
}

#[test]
fn only_a_waiting_watcher_hears_a_cancellation() {
    assert!(Watch::new().hears_cancel());
    assert!(Watch::Waiting.hears_cancel());
    assert!(!Watch::Draining.hears_cancel());
    assert!(!Watch::Finished.hears_cancel());
}

#[test]
fn the_end_of_the_acquisition_goes_first() {
    let waiting = Watch::Waiting;
    assert_eq!(waiting.select(true, CancelPoll::Sent), Some(Signal::Stopped));
    assert_eq!(waiting.select(true, CancelPoll::Dropped), Some(Signal::Stopped));
    assert_eq!(waiting.select(true, CancelPoll::Pending), Some(Signal::Stopped));
    assert_eq!(waiting.select(false, CancelPoll::Sent), Some(Signal::CancelRequested));
    assert_eq!(waiting.select(false, CancelPoll::Dropped), Some(Signal::CancelDropped));
    assert_eq!(waiting.select(false, CancelPoll::Pending), None);
    let draining = Watch::Draining;
    assert_eq!(draining.select(false, CancelPoll::Sent), None);
    assert_eq!(draining.select(true, CancelPoll::Sent), Some(Signal::Stopped));
}

#[test]
fn every_run_of_signals_stops_and_quits_at_most_once() {
    let all = [Signal::Stopped, Signal::CancelRequested, Signal::CancelDropped];
    // Every run of up to five signals.
    let mut runs: Vec<Vec<Signal>> = vec![vec![]];
    for _ in 0..5 {
        let mut longer = vec![];
        for r in &runs {
            for s in all {
                let mut next = r.clone();
                next.push(s);
                longer.push(next);
            }
        }
        for r in &longer {
            let (state, reactions) = run(r);
            let stops = count(&reactions, Reaction::RequestStop);
            let quits = count(&reactions, Reaction::Quit);
            assert_eq!(stops, if r[0] == Signal::CancelRequested { 1 } else { 0 });
            let first_stopped = r.iter().position(|s| *s == Signal::Stopped);
            match first_stopped {
                Some(i) => {
                    assert_eq!(quits, 1);
                    assert_eq!(reactions[i], Reaction::Quit);
                    assert_eq!(state, Watch::Finished);
                }
                None => {
                    assert_eq!(quits, 0);
                    assert_eq!(state, Watch::Draining);
                }
            }
            assert!(!state.hears_cancel());
        }
        runs = longer;
    }
}
