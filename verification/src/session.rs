//! The life of an acquisition session, as decisions.
//!
//! A session operation is a fixed list of native calls that ends at the
//! first failure, after the cleanup that is owed then: no datafeed callback
//! stays registered and no main context stays held when an operation has
//! failed. This module holds those lists and the rule by which each outcome
//! is judged; the caller makes the calls. It also holds the rules of
//! the watcher that lets another thread cancel a running acquisition.
use crate::error::{status_of, SigrokError, SR_ERR, SR_OK};
use crate::trigger::Triggers;
use futures::channel::oneshot::Sender;
use vstd::prelude::*;

verus! {

/// One call that a session operation asks its caller to make.
#[derive(Clone, Copy, Debug, PartialEq, Eq, Structural)]
pub enum Call {
    /// Open the device.
    DevOpen,
    /// Attach the device to the session.
    DevAdd,
    /// Hand the session its trigger, or clear it where `install` is false.
    TriggerSet { install: bool },
    /// Register the datafeed callback.
    DatafeedCallbackAdd,
    /// Set the callback that tells when the acquisition has stopped, or clear
    /// it where `notify` is false.
    StoppedCallbackSet { notify: bool },
    /// Start the acquisition.
    Start,
    /// Run the native event loop until the acquisition is over.
    Run,
    /// Ask the native library to stop the acquisition.
    Stop,
    /// Remove every datafeed callback.
    DatafeedCallbackRemoveAll,
    /// Acquire the main context of the cooperative event loop.
    MainContextAcquire,
    /// Hand the caller's code the means to cancel.
    OfferCancel,
    /// Start the watcher that waits for the end of the acquisition and for
    /// a cancellation.
    SpawnWatcher,
    /// Run the cooperative event loop until the watcher quits it.
    MainLoopRun,
    /// Release the main context.
    MainContextRelease,
}

/// What a call gave back.
#[derive(Clone, Copy, Debug, PartialEq, Eq, Structural)]
pub enum Outcome {
    /// The status code of a native call.
    Status(i32),
    /// Whether the main context could be acquired.
    Acquired(bool),
    /// The call returned, and there is nothing to judge.
    Returned,
}

/// Where an operation stands after an outcome.
#[derive(Debug)]
pub enum Progress {
    /// Make the pending call of this operation next.
    Continue(Operation),
    /// The operation is over, with this result.
    Finished(Result<(), SigrokError>),
}

impl Call {
    /// The outcome is of the kind that this call gives.
    pub open spec fn answered_by(self, outcome: Outcome) -> bool {
        match self {
            Call::MainContextAcquire => outcome is Acquired,
            Call::OfferCancel | Call::SpawnWatcher | Call::MainLoopRun | Call::MainContextRelease => {
                outcome is Returned
            },
            _ => outcome is Status,
        }
    }

    /// How an outcome of this call is judged. A status code counts as the
    /// native library defines it, with one exception: a device that is open
    /// already answers the request to open it with the generic error, and
    /// that is no failure. A main context that cannot be acquired is one.
    pub open spec fn verdict(self, outcome: Outcome) -> Result<(), SigrokError> {
        match outcome {
            Outcome::Status(code) => if self == Call::DevOpen && code == SR_ERR {
                Ok(())
            } else {
                status_of(code)
            },
            Outcome::Acquired(acquired) => if acquired {
                Ok(())
            } else {
                Err(SigrokError::GlibAcquireError)
            },
            Outcome::Returned => Ok(()),
        }
    }

    /// Judges the outcome of this call.
    pub fn judge(self, outcome: Outcome) -> (r: Result<(), SigrokError>)
        ensures
            r == self.verdict(outcome),
    {
        match outcome {
            Outcome::Status(code) => {
                match SigrokError::from(code) {
                    Err(SigrokError::Generic) => if self == Call::DevOpen {
                        Ok(())
                    } else {
                        Err(SigrokError::Generic)
                    },
                    r => r,
                }
            },
            Outcome::Acquired(acquired) => if acquired {
                Ok(())
            } else {
                Err(SigrokError::GlibAcquireError)
            },
            Outcome::Returned => Ok(()),
        }
    }
}

/// The calls that attach a device: open it, then add it.
pub open spec fn add_device_plan() -> Seq<Call> {
    seq![Call::DevOpen, Call::DevAdd]
}

/// The single call that stops an acquisition.
pub open spec fn stop_plan() -> Seq<Call> {
    seq![Call::Stop]
}

/// The calls of a blocking run.
pub open spec fn start_plan(install: bool) -> Seq<Call> {
    seq![
        Call::TriggerSet { install },
        Call::DatafeedCallbackAdd,
        Call::StoppedCallbackSet { notify: false },
        Call::Start,
        Call::Run,
        Call::DatafeedCallbackRemoveAll,
    ]
}

/// The calls of a run that can be cancelled.
pub open spec fn start_with_cancel_plan(install: bool) -> Seq<Call> {
    seq![
        Call::TriggerSet { install },
        Call::DatafeedCallbackAdd,
        Call::Start,
        Call::MainContextAcquire,
        Call::OfferCancel,
        Call::SpawnWatcher,
        Call::StoppedCallbackSet { notify: true },
        Call::MainLoopRun,
        Call::MainContextRelease,
        Call::DatafeedCallbackRemoveAll,
    ]
}

/// Whether a datafeed callback is registered once the first `k` calls of
/// `plan` have succeeded: one was added and not removed since.
pub open spec fn registered(plan: Seq<Call>, k: int) -> bool
    decreases k,
{
    if k <= 0 || k > plan.len() {
        false
    } else {
        match plan[k - 1] {
            Call::DatafeedCallbackAdd => true,
            Call::DatafeedCallbackRemoveAll => false,
            _ => registered(plan, k - 1),
        }
    }
}

/// Whether the main context is held once the first `k` calls of `plan` have
/// succeeded: it was acquired and not released since.
pub open spec fn acquired(plan: Seq<Call>, k: int) -> bool
    decreases k,
{
    if k <= 0 || k > plan.len() {
        false
    } else {
        match plan[k - 1] {
            Call::MainContextAcquire => true,
            Call::MainContextRelease => false,
            _ => acquired(plan, k - 1),
        }
    }
}

/// The calls that are owed where the call number `k` of `plan` fails after
/// all before it have succeeded: release the main context if it is held,
/// then remove the datafeed callback if one is registered. So no
/// registration outlives the operation that made it. A release or a removal
/// that has itself failed is not tried again.
pub open spec fn cleanup(plan: Seq<Call>, k: int) -> Seq<Call> {
    (if acquired(plan, k) && plan[k] != Call::MainContextRelease {
        seq![Call::MainContextRelease]
    } else {
        Seq::empty()
    }) + (if registered(plan, k) && plan[k] != Call::DatafeedCallbackRemoveAll {
        seq![Call::DatafeedCallbackRemoveAll]
    } else {
        Seq::empty()
    })
}

/// The first call of `plan` that fails where its calls give `outcomes`, one
/// after the other.
pub open spec fn first_failure(plan: Seq<Call>, outcomes: Seq<Outcome>) -> Option<int>
    decreases plan.len(),
{
    if plan.len() == 0 || outcomes.len() == 0 {
        None
    } else {
        match plan[0].verdict(outcomes[0]) {
            Err(_) => Some(0),
            Ok(_) => match first_failure(plan.skip(1), outcomes.skip(1)) {
                Some(k) => Some(k + 1),
                None => None,
            },
        }
    }
}

/// The result of carrying out `plan` where its calls give `outcomes`, one
/// after the other: the first failure, or success if there is none.
pub open spec fn plan_result(plan: Seq<Call>, outcomes: Seq<Outcome>) -> Result<(), SigrokError>
    decreases plan.len(),
{
    if plan.len() == 0 || outcomes.len() == 0 {
        Ok(())
    } else {
        match plan[0].verdict(outcomes[0]) {
            Err(e) => Err(e),
            Ok(_) => plan_result(plan.skip(1), outcomes.skip(1)),
        }
    }
}

/// The calls that are made where the calls of `plan` give `outcomes`: all
/// of the plan where none fails, and else those up to and including the
/// first that fails, followed by the cleanup that is owed then.
pub open spec fn calls_asked(plan: Seq<Call>, outcomes: Seq<Outcome>) -> Seq<Call> {
    match first_failure(plan, outcomes) {
        Some(k) => plan.take(k + 1) + cleanup(plan, k),
        None => plan,
    }
}

/// The number of calls that are made where the calls of `plan` give
/// `outcomes`, the cleanup counted in.
pub open spec fn calls_made(plan: Seq<Call>, outcomes: Seq<Outcome>) -> nat {
    calls_asked(plan, outcomes).len()
}

/// What a session operation holds, as a mathematical value.
pub struct OperationView {
    /// All the calls of the operation, in order.
    pub plan: Seq<Call>,
    /// How many calls of the plan have succeeded.
    pub position: int,
    /// The failure with which the operation will end, once a call of the
    /// plan has failed.
    pub failure: Option<SigrokError>,
    /// The cleanup calls that are still to be made after a failure.
    pub cleanup: Seq<Call>,
}

/// What an outcome does to an operation, as a mathematical value.
pub enum Step {
    /// The operation goes on in this state.
    Continue(OperationView),
    /// The operation is over, with this result.
    Finished(Result<(), SigrokError>),
}

impl OperationView {
    /// An operation at its first call.
    pub open spec fn fresh(plan: Seq<Call>) -> OperationView {
        OperationView { plan, position: 0, failure: None, cleanup: Seq::empty() }
    }

    /// The call that the operation waits for: the next of the plan, or
    /// after a failure the next of the cleanup.
    pub open spec fn pending(self) -> Call {
        if self.failure is Some {
            self.cleanup[0]
        } else {
            self.plan[self.position]
        }
    }

    /// Where the operation stands after the outcome of the pending call.
    ///
    /// A success moves on to the next call of the plan, or ends the
    /// operation with success where the plan is done. A failure ends the
    /// plan: the cleanup that is owed is made, and the operation ends with
    /// that failure. What the cleanup calls give changes nothing.
    pub open spec fn advance(self, outcome: Outcome) -> Step {
        match self.failure {
            Some(e) => if self.cleanup.len() > 1 {
                Step::Continue(
                    OperationView {
                        plan: self.plan,
                        position: self.position,
                        failure: self.failure,
                        cleanup: self.cleanup.skip(1),
                    },
                )
            } else {
                Step::Finished(Err(e))
            },
            None => match self.plan[self.position].verdict(outcome) {
                Err(e) => if cleanup(self.plan, self.position).len() > 0 {
                    Step::Continue(
                        OperationView {
                            plan: self.plan,
                            position: self.position,
                            failure: Some(e),
                            cleanup: cleanup(self.plan, self.position),
                        },
                    )
                } else {
                    Step::Finished(Err(e))
                },
                Ok(_) => if self.position + 1 < self.plan.len() {
                    Step::Continue(
                        OperationView {
                            plan: self.plan,
                            position: self.position + 1,
                            failure: None,
                            cleanup: Seq::empty(),
                        },
                    )
                } else {
                    Step::Finished(Ok(()))
                },
            },
        }
    }

    /// Where the operation ends if it is advanced with `outcomes`, one for
    /// each call it asks for: the result, and the calls it asked for.
    pub open spec fn carried_out(self, outcomes: Seq<Outcome>) -> (
        Result<(), SigrokError>,
        Seq<Call>,
    )
        decreases outcomes.len(),
    {
        if outcomes.len() == 0 {
            (Ok(()), Seq::empty())
        } else {
            match self.advance(outcomes[0]) {
                Step::Finished(r) => (r, seq![self.pending()]),
                Step::Continue(next) => {
                    let rest = next.carried_out(outcomes.skip(1));
                    (rest.0, seq![self.pending()] + rest.1)
                },
            }
        }
    }
}

/// A session operation under way: its plan and the call it waits for.
#[derive(Debug)]
pub struct Operation {
    plan: Vec<Call>,
    position: usize,
    failure: Option<SigrokError>,
    cleanup: Vec<Call>,
    cleaned: usize,
}

impl View for Operation {
    type V = OperationView;

    closed spec fn view(&self) -> OperationView {
        OperationView {
            plan: self.plan@,
            position: self.position as int,
            failure: self.failure,
            cleanup: self.cleanup@.skip(self.cleaned as int),
        }
    }
}

impl Operation {
    #[verifier::type_invariant]
    closed spec fn inv(self) -> bool {
        &&& self.position < self.plan.len()
        &&& self.failure is None ==> self.cleanup.len() == 0 && self.cleaned == 0
        &&& self.failure is Some ==> self.cleaned < self.cleanup.len()
    }

    /// The call that the operation waits for.
    pub open spec fn spec_pending(&self) -> Call {
        self@.pending()
    }

    fn begin(plan: Vec<Call>) -> (op: Operation)
        requires
            plan.len() > 0,
        ensures
            op@ == OperationView::fresh(plan@),
    {
        let op = Operation { plan, position: 0, failure: None, cleanup: Vec::new(), cleaned: 0 };
        assert(op@.cleanup =~= Seq::empty());
        op
    }

    /// The cleanup that is owed where the pending call of the plan fails.
    fn owed(&self) -> (calls: Vec<Call>)
        requires
            self.position < self.plan.len(),
        ensures
            calls@ == cleanup(self.plan@, self.position as int),
    {
        let mut callback = false;
        let mut context = false;
        let mut i: usize = 0;
        while i < self.position
            invariant
                i <= self.position < self.plan.len(),
                callback == registered(self.plan@, i as int),
                context == acquired(self.plan@, i as int),
            decreases self.position - i,
        {
            match self.plan[i] {
                Call::DatafeedCallbackAdd => {
                    callback = true;
                },
                Call::DatafeedCallbackRemoveAll => {
                    callback = false;
                },
                Call::MainContextAcquire => {
                    context = true;
                },
                Call::MainContextRelease => {
                    context = false;
                },
                _ => {},
            }
            i = i + 1;
        }
        let failed = self.plan[self.position];
        let mut calls: Vec<Call> = Vec::new();
        if context && failed != Call::MainContextRelease {
            calls.push(Call::MainContextRelease);
        }
        if callback && failed != Call::DatafeedCallbackRemoveAll {
            calls.push(Call::DatafeedCallbackRemoveAll);
        }
        assert(calls@ =~= cleanup(self.plan@, self.position as int));
        calls
    }

    /// The call to make now.
    #[verifier::when_used_as_spec(spec_pending)]
    pub fn pending(&self) -> (call: Call)
        ensures
            call == self@.pending(),
    {
        proof {
            use_type_invariant(self);
        }
        match self.failure {
            Some(_) => self.cleanup[self.cleaned],
            None => self.plan[self.position],
        }
    }

    /// Takes the outcome of the pending call.
    ///
    /// A success moves on to the next call of the plan, or ends the
    /// operation with success where the plan is done. A failure ends the
    /// plan: the operation goes on with the cleanup that is owed, so that
    /// the main context is released and the datafeed callback removed, and
    /// then ends with that failure, whatever the cleanup calls give.
    pub fn advance(self, outcome: Outcome) -> (r: Progress)
        ensures
            match self@.advance(outcome) {
                Step::Continue(state) => r matches Progress::Continue(next) && next@ == state,
                Step::Finished(result) => r matches Progress::Finished(x) && x == result,
            },
    {
        proof {
            use_type_invariant(&self);
        }
        match self.failure {
            Some(e) => {
                if self.cleaned + 1 < self.cleanup.len() {
                    let next = Operation {
                        plan: self.plan,
                        position: self.position,
                        failure: self.failure,
                        cleanup: self.cleanup,
                        cleaned: self.cleaned + 1,
                    };
                    assert(next@.cleanup =~= self@.cleanup.skip(1));
                    Progress::Continue(next)
                } else {
                    Progress::Finished(Err(e))
                }
            },
            None => match self.plan[self.position].judge(outcome) {
                Err(e) => {
                    let owed = self.owed();
                    if owed.len() > 0 {
                        let next = Operation {
                            plan: self.plan,
                            position: self.position,
                            failure: Some(e),
                            cleanup: owed,
                            cleaned: 0,
                        };
                        assert(next@.cleanup =~= cleanup(self@.plan, self@.position));
                        Progress::Continue(next)
                    } else {
                        Progress::Finished(Err(e))
                    }
                },
                Ok(()) => {
                    if self.position + 1 < self.plan.len() {
                        let next = Operation {
                            plan: self.plan,
                            position: self.position + 1,
                            failure: None,
                            cleanup: self.cleanup,
                            cleaned: 0,
                        };
                        assert(next@.cleanup =~= Seq::empty());
                        Progress::Continue(next)
                    } else {
                        Progress::Finished(Ok(()))
                    }
                },
            },
        }
    }
}

/// Where the first failure of a plan is, the call there fails and all
/// before it succeed; where there is none, every call that has an outcome
/// succeeds. And the plan's result is that failure, or success.
pub proof fn lemma_first_failure(plan: Seq<Call>, outcomes: Seq<Outcome>)
    requires
        outcomes.len() >= plan.len(),
    ensures
        match first_failure(plan, outcomes) {
            Some(k) => 0 <= k < plan.len() && plan[k].verdict(outcomes[k]) is Err
                && plan_result(plan, outcomes) == plan[k].verdict(outcomes[k]) && forall|i: int|
                0 <= i < k ==> (#[trigger] plan[i]).verdict(outcomes[i]) is Ok,
            None => plan_result(plan, outcomes) is Ok && forall|i: int|
                0 <= i < plan.len() ==> (#[trigger] plan[i]).verdict(outcomes[i]) is Ok,
        },
    decreases plan.len(),
{
    if plan.len() > 0 && plan[0].verdict(outcomes[0]) is Ok {
        let p = plan.skip(1);
        let o = outcomes.skip(1);
        lemma_first_failure(p, o);
        match first_failure(p, o) {
            Some(k) => {
                assert(p[k] == plan[k + 1]);
                assert(o[k] == outcomes[k + 1]);
                assert forall|i: int| 0 <= i < k + 1 implies (#[trigger] plan[i]).verdict(
                    outcomes[i],
                ) is Ok by {
                    if i > 0 {
                        assert(p[i - 1] == plan[i]);
                        assert(o[i - 1] == outcomes[i]);
                    }
                }
            },
            None => {
                assert forall|i: int| 0 <= i < plan.len() implies (#[trigger] plan[i]).verdict(
                    outcomes[i],
                ) is Ok by {
                    if i > 0 {
                        assert(p[i - 1] == plan[i]);
                        assert(o[i - 1] == outcomes[i]);
                    }
                }
            },
        }
    }
}

/// After a failure the operation asks for what is left of the cleanup, in
/// order, and ends with that failure, whatever the cleanup calls give.
pub proof fn lemma_cleanup_is_carried_out(state: OperationView, outcomes: Seq<Outcome>)
    requires
        state.failure is Some,
        state.cleanup.len() > 0,
        outcomes.len() >= state.cleanup.len(),
    ensures
        state.carried_out(outcomes) == (
            Err::<(), SigrokError>(state.failure->Some_0),
            state.cleanup,
        ),
    decreases state.cleanup.len(),
{
    if state.cleanup.len() > 1 {
        let next = state.advance(outcomes[0])->Continue_0;
        lemma_cleanup_is_carried_out(next, outcomes.skip(1));
        assert(seq![state.cleanup[0]] + state.cleanup.skip(1) =~= state.cleanup);
    } else {
        assert(seq![state.cleanup[0]] =~= state.cleanup);
    }
}

/// The calls that are asked for from the call number `position` of a plan
/// on, where these calls give `outcomes`.
pub open spec fn calls_asked_from(plan: Seq<Call>, position: int, outcomes: Seq<Outcome>) -> Seq<
    Call,
> {
    match first_failure(plan.skip(position), outcomes) {
        Some(k) => plan.subrange(position, position + k + 1) + cleanup(plan, position + k),
        None => plan.skip(position),
    }
}

/// An operation whose plan has come to the call number `position` ends
/// with the first failure among the calls from there on, or with success
/// where none fails; and it asks for these calls up to the first that
/// fails, and then for the cleanup that is owed.
pub proof fn lemma_carried_out_from(plan: Seq<Call>, position: int, outcomes: Seq<Outcome>)
    requires
        0 <= position < plan.len(),
        outcomes.len() >= plan.len() - position,
        outcomes.len() >= calls_asked_from(plan, position, outcomes).len(),
    ensures
        (OperationView { plan, position, failure: None, cleanup: Seq::empty() }).carried_out(
            outcomes,
        ) == (
            plan_result(plan.skip(position), outcomes),
            calls_asked_from(plan, position, outcomes),
        ),
    decreases plan.len() - position,
{
    let state = OperationView { plan, position, failure: None, cleanup: Seq::empty() };
    let tail = plan.skip(position);
    assert(tail[0] == plan[position]);
    assert(tail.skip(1) =~= plan.skip(position + 1));
    match plan[position].verdict(outcomes[0]) {
        Err(e) => {
            assert(first_failure(tail, outcomes) == Some(0int));
            assert(plan.subrange(position, position + 1) =~= seq![plan[position]]);
            if cleanup(plan, position).len() > 0 {
                let next = state.advance(outcomes[0])->Continue_0;
                lemma_cleanup_is_carried_out(next, outcomes.skip(1));
            } else {
                assert(seq![plan[position]] + cleanup(plan, position) =~= seq![plan[position]]);
            }
        },
        Ok(_) => {
            if position + 1 < plan.len() {
                lemma_first_failure(tail.skip(1), outcomes.skip(1));
                match first_failure(tail.skip(1), outcomes.skip(1)) {
                    Some(k) => {
                        assert(plan.subrange(position, position + k + 2) =~= seq![plan[position]]
                            + plan.subrange(position + 1, position + 1 + k + 1));
                        assert(calls_asked_from(plan, position, outcomes) =~= seq![plan[position]]
                            + calls_asked_from(plan, position + 1, outcomes.skip(1)));
                    },
                    None => {
                        assert(plan.skip(position) =~= seq![plan[position]] + plan.skip(
                            position + 1,
                        ));
                    },
                }
                lemma_carried_out_from(plan, position + 1, outcomes.skip(1));
            } else {
                assert(tail.skip(1).len() == 0);
                assert(first_failure(tail.skip(1), outcomes.skip(1)) is None);
                assert(plan_result(tail.skip(1), outcomes.skip(1)) is Ok);
                assert(plan.skip(position) =~= seq![plan[position]]);
            }
        },
    }
}

/// An operation that is advanced with the outcome of each call it asks
/// for ends with the first failure among the calls of its plan, or with
/// success where none fails. It asks for no call of the plan after the
/// first that failed, but for the cleanup that is owed then.
pub proof fn lemma_operation_stops_at_first_failure(plan: Seq<Call>, outcomes: Seq<Outcome>)
    requires
        plan.len() > 0,
        outcomes.len() >= plan.len(),
        outcomes.len() >= calls_made(plan, outcomes),
    ensures
        OperationView::fresh(plan).carried_out(outcomes) == (
            plan_result(plan, outcomes),
            calls_asked(plan, outcomes),
        ),
{
    assert(plan.skip(0) =~= plan);
    match first_failure(plan, outcomes) {
        Some(k) => {
            assert(plan.subrange(0, k + 1) =~= plan.take(k + 1));
        },
        None => {},
    }
    lemma_carried_out_from(plan, 0, outcomes);
}

/// Where the call number `k` of a plan is the first that fails, the plan's
/// result is that failure, and the calls made are the first `k + 1` of the
/// plan and the cleanup that is owed.
pub proof fn lemma_first_failure_decides(plan: Seq<Call>, outcomes: Seq<Outcome>, k: int)
    requires
        outcomes.len() >= plan.len(),
        0 <= k < plan.len(),
        plan[k].verdict(outcomes[k]) is Err,
        forall|i: int| 0 <= i < k ==> (#[trigger] plan[i]).verdict(outcomes[i]) is Ok,
    ensures
        first_failure(plan, outcomes) == Some(k),
        plan_result(plan, outcomes) == plan[k].verdict(outcomes[k]),
        calls_asked(plan, outcomes) == plan.take(k + 1) + cleanup(plan, k),
        calls_made(plan, outcomes) == k + 1 + cleanup(plan, k).len(),
{
    lemma_first_failure(plan, outcomes);
    match first_failure(plan, outcomes) {
        Some(j) => {
            if j < k {
                assert(plan[j].verdict(outcomes[j]) is Ok);
            }
            if k < j {
                assert(plan[k].verdict(outcomes[k]) is Ok);
            }
        },
        None => {
            assert(plan[k].verdict(outcomes[k]) is Ok);
        },
    }
}

/// Where no call of a plan fails, the plan's result is success and exactly
/// the calls of the plan are made.
pub proof fn lemma_no_failure_succeeds(plan: Seq<Call>, outcomes: Seq<Outcome>)
    requires
        outcomes.len() >= plan.len(),
        forall|i: int| 0 <= i < plan.len() ==> (#[trigger] plan[i]).verdict(outcomes[i]) is Ok,
    ensures
        first_failure(plan, outcomes) is None,
        plan_result(plan, outcomes) is Ok,
        calls_asked(plan, outcomes) == plan,
        calls_made(plan, outcomes) == plan.len(),
{
    lemma_first_failure(plan, outcomes);
    match first_failure(plan, outcomes) {
        Some(j) => {
            assert(plan[j].verdict(outcomes[j]) is Ok);
        },
        None => {},
    }
}

/// What is owed where a call of a blocking run fails: nothing for the first
/// two calls, before any callback is registered, and nothing where the
/// removal itself fails; for every call between them the removal of the
/// datafeed callback.
pub proof fn lemma_start_cleanup(install: bool, k: int)
    requires
        0 <= k < 6,
    ensures
        cleanup(start_plan(install), k) == (if 2 <= k <= 4 {
            seq![Call::DatafeedCallbackRemoveAll]
        } else {
            Seq::<Call>::empty()
        }),
{
    let plan = start_plan(install);
    reveal_with_fuel(registered, 7);
    reveal_with_fuel(acquired, 7);
    assert(plan[0] == Call::TriggerSet { install });
    assert(plan[1] == Call::DatafeedCallbackAdd);
    assert(plan[2] == Call::StoppedCallbackSet { notify: false });
    assert(plan[3] == Call::Start);
    assert(plan[4] == Call::Run);
    assert(plan[5] == Call::DatafeedCallbackRemoveAll);
    assert(cleanup(plan, k) =~= (if 2 <= k <= 4 {
        seq![Call::DatafeedCallbackRemoveAll]
    } else {
        Seq::<Call>::empty()
    }));
}

/// What is owed where a call of a cancellable run fails: nothing for the
/// first two calls and where the final removal itself fails; the removal of
/// the datafeed callback from then on; and before it the release of the main
/// context once that is held.
pub proof fn lemma_start_with_cancel_cleanup(install: bool, k: int)
    requires
        0 <= k < 10,
    ensures
        cleanup(start_with_cancel_plan(install), k) == (if k <= 1 || k == 9 {
            Seq::<Call>::empty()
        } else if k <= 3 || k == 8 {
            seq![Call::DatafeedCallbackRemoveAll]
        } else {
            seq![Call::MainContextRelease, Call::DatafeedCallbackRemoveAll]
        }),
{
    let plan = start_with_cancel_plan(install);
    reveal_with_fuel(registered, 11);
    reveal_with_fuel(acquired, 11);
    assert(plan[0] == Call::TriggerSet { install });
    assert(plan[1] == Call::DatafeedCallbackAdd);
    assert(plan[2] == Call::Start);
    assert(plan[3] == Call::MainContextAcquire);
    assert(plan[4] == Call::OfferCancel);
    assert(plan[5] == Call::SpawnWatcher);
    assert(plan[6] == Call::StoppedCallbackSet { notify: true });
    assert(plan[7] == Call::MainLoopRun);
    assert(plan[8] == Call::MainContextRelease);
    assert(plan[9] == Call::DatafeedCallbackRemoveAll);
    assert(cleanup(plan, k) =~= (if k <= 1 || k == 9 {
        Seq::<Call>::empty()
    } else if k <= 3 || k == 8 {
        seq![Call::DatafeedCallbackRemoveAll]
    } else {
        seq![Call::MainContextRelease, Call::DatafeedCallbackRemoveAll]
    }));
}

/// No way in which a run can end leaves the datafeed callback registered:
/// once the callback was added, the last call that the run asks for is the
/// removal of the callbacks, whether the run succeeds or a later call fails.
/// This holds of the blocking run and of the cancellable one.
pub proof fn lemma_start_removes_callback(install: bool, cancellable: bool, outcomes: Seq<Outcome>)
    requires
        outcomes.len() >= 10,
    ensures
        ({
            let plan = if cancellable {
                start_with_cancel_plan(install)
            } else {
                start_plan(install)
            };
            (first_failure(plan, outcomes) matches Some(k) ==> k >= 2) ==> calls_asked(
                plan,
                outcomes,
            ).last() == Call::DatafeedCallbackRemoveAll
        }),
{
    let plan = if cancellable {
        start_with_cancel_plan(install)
    } else {
        start_plan(install)
    };
    lemma_first_failure(plan, outcomes);
    match first_failure(plan, outcomes) {
        Some(k) => {
            if cancellable {
                lemma_start_with_cancel_cleanup(install, k);
            } else {
                lemma_start_cleanup(install, k);
            }
            if k >= 2 {
                let asked = plan.take(k + 1) + cleanup(plan, k);
                if cleanup(plan, k).len() == 0 {
                    assert(asked =~= plan.take(k + 1));
                    assert(plan.take(k + 1).last() == plan[k]);
                } else {
                    assert(asked.last() == cleanup(plan, k).last());
                }
            }
        },
        None => {},
    }
}

/// Attaching a device succeeds whether the device had to be opened or was
/// open already, so attaching it twice fails no more than attaching it once.
pub proof fn lemma_add_device_tolerates_open_device(open_code: i32, add_code: i32)
    requires
        open_code == SR_OK || open_code == SR_ERR,
    ensures
        plan_result(add_device_plan(), seq![Outcome::Status(open_code), Outcome::Status(add_code)])
            == status_of(add_code),
{
    let plan = add_device_plan();
    let outcomes = seq![Outcome::Status(open_code), Outcome::Status(add_code)];
    assert(plan.skip(1)[0] == Call::DevAdd);
    assert(outcomes.skip(1)[0] == Outcome::Status(add_code));
    assert(plan.skip(1).skip(1).len() == 0);
    reveal_with_fuel(plan_result, 3);
}

/// The verified protocol of one acquisition session. It holds no data of its
/// own: the native handle stays with the caller, who makes the calls that
/// the operations of the session ask for.
#[derive(Debug)]
pub struct Session {}

impl Session {
    /// Judges the status code with which the native session was created.
    pub fn new(code: i32) -> (r: Result<Session, SigrokError>)
        ensures
            r is Ok <==> code == SR_OK,
            r matches Err(e) ==> status_of(code) == Err::<(), SigrokError>(e),
    {
        match SigrokError::from(code) {
            Ok(()) => Ok(Session {}),
            Err(e) => Err(e),
        }
    }

    /// Add and initialize a device: open it, unless it is open already, then
    /// attach it to the session.
    pub fn add_device(&self) -> (op: Operation)
        ensures
            op@ == OperationView::fresh(add_device_plan()),
    {
        let mut plan: Vec<Call> = Vec::new();
        plan.push(Call::DevOpen);
        plan.push(Call::DevAdd);
        assert(plan@ =~= add_device_plan());
        Operation::begin(plan)
    }

    /// Stop acquiring data. This is only useful to cancel data acquisition
    /// from the callback of [`start`][Self::start].
    pub fn stop(&self) -> (op: Operation)
        ensures
            op@ == OperationView::fresh(stop_plan()),
    {
        let mut plan: Vec<Call> = Vec::new();
        plan.push(Call::Stop);
        assert(plan@ =~= stop_plan());
        Operation::begin(plan)
    }

    /// Whether a trigger is handed to the native session: only where one is
    /// given and it holds a match; every other case clears the trigger.
    pub open spec fn installs(triggers: Option<&Triggers>) -> bool {
        match triggers {
            Some(t) => !t.spec_is_null(),
            None => false,
        }
    }

    /// The call that sets or clears the session's trigger.
    pub fn set_triggers(&self, triggers: Option<&Triggers>) -> (call: Call)
        ensures
            call == (Call::TriggerSet { install: Self::installs(triggers) }),
    {
        match triggers {
            Some(t) => Call::TriggerSet { install: !t.is_null() },
            None => Call::TriggerSet { install: false },
        }
    }

    /// Start acquiring data, blocking until the acquisition is over. Where
    /// a call fails after the datafeed callback was registered, the callback
    /// is removed before the run ends with that failure.
    pub fn start(&self, triggers: Option<&Triggers>) -> (op: Operation)
        ensures
            op@ == OperationView::fresh(start_plan(Self::installs(triggers))),
    {
        let mut plan: Vec<Call> = Vec::new();
        plan.push(self.set_triggers(triggers));
        plan.push(Call::DatafeedCallbackAdd);
        plan.push(Call::StoppedCallbackSet { notify: false });
        plan.push(Call::Start);
        plan.push(Call::Run);
        plan.push(Call::DatafeedCallbackRemoveAll);
        assert(plan@ =~= start_plan(Self::installs(triggers)));
        Operation::begin(plan)
    }

    /// Start acquiring data with the ability to cancel it from another
    /// thread, blocking until the acquisition is over. Where a call fails,
    /// the main context is released if it is held and the datafeed callback
    /// removed if it is registered, before the run ends with that failure.
    pub fn start_with_cancel(&self, triggers: Option<&Triggers>) -> (op: Operation)
        ensures
            op@ == OperationView::fresh(start_with_cancel_plan(Self::installs(triggers))),
    {
        let mut plan: Vec<Call> = Vec::new();
        plan.push(self.set_triggers(triggers));
        plan.push(Call::DatafeedCallbackAdd);
        plan.push(Call::Start);
        plan.push(Call::MainContextAcquire);
        plan.push(Call::OfferCancel);
        plan.push(Call::SpawnWatcher);
        plan.push(Call::StoppedCallbackSet { notify: true });
        plan.push(Call::MainLoopRun);
        plan.push(Call::MainContextRelease);
        plan.push(Call::DatafeedCallbackRemoveAll);
        assert(plan@ =~= start_with_cancel_plan(Self::installs(triggers)));
        Operation::begin(plan)
    }

    /// Whether the native session was torn down in order. A session whose
    /// teardown fails cannot be recovered: the caller aborts.
    pub fn destroyed(code: i32) -> (ok: bool)
        ensures
            ok <==> code == SR_OK,
    {
        code == SR_OK
    }
}

#[verifier::external_type_specification]
#[verifier::external_body]
#[verifier::reject_recursive_types(T)]
pub struct ExSender<T>(Sender<T>);

/// Calls `Sender::send` with the unit value. Whether the value arrives
/// depends on the other end of the channel, so nothing is promised.
#[verifier::external_body]
fn send_unit(sender: Sender<()>) -> (delivered: bool) {
    sender.send(()).is_ok()
}

/// The callback that the native library calls when the acquisition has
/// stopped: it tells the watcher so, once. The slot is empty afterwards,
/// so a second call does nothing.
pub fn quit_loop(main_loop: &mut Option<Sender<()>>)
    ensures
        *final(main_loop) is None,
{
    if let Some(cancel) = main_loop.take() {
        let _ = send_unit(cancel);
    }
}

} // verus!
