//! The watcher of a cancellable run.
//!
//! While the cooperative event loop runs, one task waits for two one-shot
//! signals: the native library's notice that the acquisition has stopped, and
//! a cancellation from another thread. This module decides what the task
//! does on each of them; the caller does the waiting.
use vstd::prelude::*;

verus! {

/// What the watcher can be told.
#[derive(Clone, Copy, Debug, PartialEq, Eq, Structural)]
pub enum Signal {
    /// The native library says that the acquisition has stopped.
    Stopped,
    /// Another thread asks to cancel.
    CancelRequested,
    /// The means to cancel was dropped unused.
    CancelDropped,
}

/// The state of the watcher.
#[derive(Clone, Copy, Debug, PartialEq, Eq, Structural)]
pub enum Watch {
    /// Waiting for the end of the acquisition or for a cancellation,
    /// whichever comes first.
    Waiting,
    /// The cancellation is settled; waiting for the native library to say
    /// that the acquisition has stopped.
    Draining,
    /// The event loop was told to quit.
    Finished,
}

/// What the watcher does on a signal.
#[derive(Clone, Copy, Debug, PartialEq, Eq, Structural)]
pub enum Reaction {
    /// Nothing: go on waiting.
    Wait,
    /// Ask the native library to stop the acquisition, and go on waiting.
    RequestStop,
    /// Quit the event loop.
    Quit,
}

/// What the receiving end of the cancellation channel shows when polled.
#[derive(Clone, Copy, Debug, PartialEq, Eq, Structural)]
pub enum CancelPoll {
    /// Nothing yet.
    Pending,
    /// A cancellation was sent.
    Sent,
    /// The sending end is gone and nothing was sent.
    Dropped,
}

impl Watch {
    /// Whether the watcher still holds the receiving end of the cancellation
    /// channel. Once it does not, a cancellation can no longer be delivered.
    pub open spec fn spec_hears_cancel(self) -> bool {
        self is Waiting
    }

    /// The watcher's next state and its reaction to a signal.
    pub open spec fn spec_step(self, signal: Signal) -> (Watch, Reaction) {
        match (self, signal) {
            (Watch::Waiting, Signal::Stopped) => (Watch::Finished, Reaction::Quit),
            (Watch::Waiting, Signal::CancelRequested) => (Watch::Draining, Reaction::RequestStop),
            (Watch::Waiting, Signal::CancelDropped) => (Watch::Draining, Reaction::Wait),
            (Watch::Draining, Signal::Stopped) => (Watch::Finished, Reaction::Quit),
            (state, _) => (state, Reaction::Wait),
        }
    }

    /// The signal that the watcher takes up, if any, given what its two
    /// channels show. The end of the acquisition goes first where both are
    /// ready; the cancellation channel counts only while the watcher holds it.
    pub open spec fn spec_select(self, stopped: bool, cancel: CancelPoll) -> Option<Signal> {
        match self {
            Watch::Finished => None,
            Watch::Draining => if stopped {
                Some(Signal::Stopped)
            } else {
                None
            },
            Watch::Waiting => if stopped {
                Some(Signal::Stopped)
            } else {
                match cancel {
                    CancelPoll::Pending => None,
                    CancelPoll::Sent => Some(Signal::CancelRequested),
                    CancelPoll::Dropped => Some(Signal::CancelDropped),
                }
            },
        }
    }

    /// The state in which the watcher starts.
    pub fn new() -> (r: Watch)
        ensures
            r == Watch::Waiting,
    {
        Watch::Waiting
    }

    /// Whether the watcher still holds the receiving end of the cancellation
    /// channel.
    #[verifier::when_used_as_spec(spec_hears_cancel)]
    pub fn hears_cancel(self) -> (r: bool)
        ensures
            r == self.spec_hears_cancel(),
    {
        match self {
            Watch::Waiting => true,
            _ => false,
        }
    }

    /// Picks the signal to take up, the end of the acquisition first.
    pub fn select(self, stopped: bool, cancel: CancelPoll) -> (r: Option<Signal>)
        ensures
            r == self.spec_select(stopped, cancel),
    {
        match self {
            Watch::Finished => None,
            Watch::Draining => if stopped {
                Some(Signal::Stopped)
            } else {
                None
            },
            Watch::Waiting => if stopped {
                Some(Signal::Stopped)
            } else {
                match cancel {
                    CancelPoll::Pending => None,
                    CancelPoll::Sent => Some(Signal::CancelRequested),
                    CancelPoll::Dropped => Some(Signal::CancelDropped),
                }
            },
        }
    }

    /// Takes one signal: the next state, and what to do now.
    ///
    /// While waiting, the end of the acquisition quits the loop at once; a
    /// cancellation asks the native library to stop and keeps waiting for its
    /// notice, and so does a dropped sender, without asking. Once the
    /// cancellation is settled only the native notice counts, and it quits
    /// the loop. After that nothing has any effect.
    pub fn step(self, signal: Signal) -> (r: (Watch, Reaction))
        ensures
            r == self.spec_step(signal),
    {
        match self {
            Watch::Waiting => match signal {
                Signal::Stopped => (Watch::Finished, Reaction::Quit),
                Signal::CancelRequested => (Watch::Draining, Reaction::RequestStop),
                Signal::CancelDropped => (Watch::Draining, Reaction::Wait),
            },
            Watch::Draining => match signal {
                Signal::Stopped => (Watch::Finished, Reaction::Quit),
                _ => (Watch::Draining, Reaction::Wait),
            },
            Watch::Finished => (Watch::Finished, Reaction::Wait),
        }
    }

    /// The state after a run of signals.
    pub open spec fn after(self, signals: Seq<Signal>) -> Watch
        decreases signals.len(),
    {
        if signals.len() == 0 {
            self
        } else {
            self.spec_step(signals[0]).0.after(signals.skip(1))
        }
    }

    /// The reactions to a run of signals, one for each.
    pub open spec fn reactions(self, signals: Seq<Signal>) -> Seq<Reaction>
        decreases signals.len(),
    {
        if signals.len() == 0 {
            Seq::empty()
        } else {
            seq![self.spec_step(signals[0]).1] + self.spec_step(signals[0]).0.reactions(
                signals.skip(1),
            )
        }
    }
}

/// How often `reaction` occurs in `reactions`.
pub open spec fn occurrences(reactions: Seq<Reaction>, reaction: Reaction) -> nat
    decreases reactions.len(),
{
    if reactions.len() == 0 {
        0
    } else {
        (if reactions[0] == reaction {
            1nat
        } else {
            0nat
        }) + occurrences(reactions.skip(1), reaction)
    }
}

/// No signal before position `upto` says that the acquisition has stopped.
pub open spec fn none_stopped(signals: Seq<Signal>, upto: int) -> bool {
    forall|i: int| 0 <= i < upto && i < signals.len() ==> #[trigger] signals[i] != Signal::Stopped
}

/// There is one reaction to each signal.
pub proof fn lemma_reactions_len(state: Watch, signals: Seq<Signal>)
    ensures
        state.reactions(signals).len() == signals.len(),
    decreases signals.len(),
{
    if signals.len() > 0 {
        lemma_reactions_len(state.spec_step(signals[0]).0, signals.skip(1));
    }
}

/// Once the loop was told to quit, no signal has any effect: the state
/// stays, the native library is not asked to stop, and the loop is not quit a
/// second time. A cancellation that comes after the natural end of the
/// acquisition finds the receiving end gone and changes nothing.
pub proof fn lemma_finished_is_final(signals: Seq<Signal>)
    ensures
        Watch::Finished.after(signals) == Watch::Finished,
        !Watch::Finished.spec_hears_cancel(),
        forall|i: int|
            0 <= i < signals.len() ==> #[trigger] Watch::Finished.reactions(signals)[i]
                == Reaction::Wait,
        occurrences(Watch::Finished.reactions(signals), Reaction::RequestStop) == 0,
        occurrences(Watch::Finished.reactions(signals), Reaction::Quit) == 0,
    decreases signals.len(),
{
    if signals.len() > 0 {
        let rest = signals.skip(1);
        lemma_finished_is_final(rest);
        lemma_reactions_len(Watch::Finished, rest);
        let all = Watch::Finished.reactions(signals);
        let tail = Watch::Finished.reactions(rest);
        assert(all =~= seq![Reaction::Wait] + tail);
        assert(all.skip(1) =~= tail);
        assert forall|i: int| 0 <= i < signals.len() implies #[trigger] all[i]
            == Reaction::Wait by {
            if i > 0 {
                assert(all[i] == tail[i - 1]);
            }
        }
    }
}

/// Where the first signal does not say that the acquisition has stopped,
/// nothing before a later position says so exactly when nothing before
/// that position, counted from the second signal on, says so.
proof fn lemma_none_stopped_shift(signals: Seq<Signal>, upto: int)
    requires
        signals.len() > 0,
        signals[0] != Signal::Stopped,
        upto >= 1,
    ensures
        none_stopped(signals, upto) <==> none_stopped(signals.skip(1), upto - 1),
{
    let rest = signals.skip(1);
    if none_stopped(signals, upto) {
        assert forall|j: int| 0 <= j < upto - 1 && j < rest.len() implies #[trigger] rest[j]
            != Signal::Stopped by {
            assert(rest[j] == signals[j + 1]);
        }
    }
    if none_stopped(rest, upto - 1) {
        assert forall|j: int| 0 <= j < upto && j < signals.len() implies #[trigger] signals[j]
            != Signal::Stopped by {
            if j > 0 {
                assert(signals[j] == rest[j - 1]);
            }
        }
    }
}

/// A watcher that has not told the loop to quit does so exactly on the
/// first notice that the acquisition has stopped: not before it, and only
/// once. Until then its cancellation stays settled once it is.
pub proof fn lemma_quits_on_first_stopped(state: Watch, signals: Seq<Signal>)
    requires
        state != Watch::Finished,
    ensures
        occurrences(state.reactions(signals), Reaction::Quit) <= 1,
        forall|i: int|
            0 <= i < signals.len() ==> ((#[trigger] state.reactions(signals)[i]) == Reaction::Quit
                <==> signals[i] == Signal::Stopped && none_stopped(signals, i)),
        state.after(signals) == Watch::Finished <==> !none_stopped(signals, signals.len() as int),
        state == Watch::Draining || signals.len() > 0 ==> !state.after(signals).spec_hears_cancel(),
    decreases signals.len(),
{
    if signals.len() > 0 {
        let rest = signals.skip(1);
        let next = state.spec_step(signals[0]).0;
        let first = state.spec_step(signals[0]).1;
        let all = state.reactions(signals);
        let tail = next.reactions(rest);
        lemma_reactions_len(next, rest);
        assert(all =~= seq![first] + tail);
        assert(all.skip(1) =~= tail);
        if signals[0] == Signal::Stopped {
            lemma_finished_is_final(rest);
            assert(!none_stopped(signals, signals.len() as int));
            assert forall|i: int| 0 <= i < signals.len() implies ((#[trigger] all[i])
                == Reaction::Quit <==> signals[i] == Signal::Stopped && none_stopped(
                signals,
                i,
            )) by {
                if i > 0 {
                    assert(all[i] == tail[i - 1]);
                    assert(!none_stopped(signals, i));
                }
            }
        } else {
            assert(next == Watch::Draining);
            lemma_quits_on_first_stopped(next, rest);
            assert forall|i: int| 0 <= i < signals.len() implies ((#[trigger] all[i])
                == Reaction::Quit <==> signals[i] == Signal::Stopped && none_stopped(
                signals,
                i,
            )) by {
                if i > 0 {
                    assert(all[i] == tail[i - 1]);
                    assert(signals[i] == rest[i - 1]);
                    lemma_none_stopped_shift(signals, i);
                }
            }
            lemma_none_stopped_shift(signals, signals.len() as int);
        }
    }
}

/// Once the cancellation is settled, the native library is never asked to
/// stop again.
pub proof fn lemma_draining_never_stops(signals: Seq<Signal>)
    ensures
        occurrences(Watch::Draining.reactions(signals), Reaction::RequestStop) == 0,
    decreases signals.len(),
{
    if signals.len() > 0 {
        let rest = signals.skip(1);
        let next = Watch::Draining.spec_step(signals[0]).0;
        let first = Watch::Draining.spec_step(signals[0]).1;
        assert(Watch::Draining.reactions(signals).skip(1) =~= next.reactions(rest));
        if signals[0] == Signal::Stopped {
            lemma_finished_is_final(rest);
        } else {
            lemma_draining_never_stops(rest);
        }
    }
}

/// Whatever the watcher is told, from its start on: it asks the native
/// library to stop at most once, and exactly once where the first thing it
/// is told is a cancellation; and it quits the loop at most once, on the
/// first notice that the acquisition has stopped and on nothing else. So a
/// cancelled run still waits for the native library to confirm the stop, and
/// a cancellation that comes after the first signal finds the receiving end
/// gone.
pub proof fn lemma_cancellation_race(signals: Seq<Signal>)
    ensures
        occurrences(Watch::Waiting.reactions(signals), Reaction::RequestStop) == (if signals.len()
            > 0 && signals[0] == Signal::CancelRequested {
            1nat
        } else {
            0nat
        }),
        occurrences(Watch::Waiting.reactions(signals), Reaction::Quit) <= 1,
        forall|i: int|
            0 <= i < signals.len() ==> ((#[trigger] Watch::Waiting.reactions(signals)[i])
                == Reaction::Quit <==> signals[i] == Signal::Stopped && none_stopped(signals, i)),
        Watch::Waiting.after(signals) == Watch::Finished <==> !none_stopped(
            signals,
            signals.len() as int,
        ),
        signals.len() > 0 ==> !Watch::Waiting.after(signals).spec_hears_cancel(),
{
    lemma_quits_on_first_stopped(Watch::Waiting, signals);
    if signals.len() > 0 {
        let rest = signals.skip(1);
        let next = Watch::Waiting.spec_step(signals[0]).0;
        assert(Watch::Waiting.reactions(signals).skip(1) =~= next.reactions(rest));
        if signals[0] == Signal::Stopped {
            lemma_finished_is_final(rest);
        } else {
            lemma_draining_never_stops(rest);
        }
    }
}

} // verus!
