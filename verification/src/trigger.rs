//! Trigger descriptions.
use crate::device::Channel;
use crate::enums::TriggerType;
use vstd::prelude::*;

verus! {

/// A specific trigger.
///
/// Internally, this is known as a "trigger match" in Sigrok. It describes what type of event to
/// match.
#[derive(Debug, Clone)]
pub struct Trigger {
    /// The channel that this trigger should wait for.
    pub channel: Channel,
    /// The state of the channel that should trigger this Trigger.
    pub trigger_match: TriggerType,
    /// If the trigger match is one of [`Over`][TriggerType::Over] or
    /// [`Under`][TriggerType::Under], this is the value to compare against,
    /// as the bit pattern of a single-precision number.
    ///
    /// This is used for analog channels to trigger when the voltage goes above
    /// ([`Over`][TriggerType::Over]) or below ([`Under`][TriggerType::Under]) a specific voltage.
    pub value: u32,
}

/// A list of trigger stages.
///
/// In Sigrok, triggers are defined as a list of *trigger stages*. There may be
/// multiple trigger stages in one session. All [`Trigger`]s within one trigger stage must occur
/// at the same time for that trigger stage to activate.
#[derive(Debug, Clone)]
pub struct Triggers {
    stages: Vec<Vec<Trigger>>,
}

impl Triggers {
    /// The stages in order, each with its matches in order.
    pub closed spec fn stages(&self) -> Seq<Seq<Trigger>> {
        Seq::new(self.stages@.len(), |i: int| self.stages@[i]@)
    }

    /// The description holds nothing that a session could wait for: no
    /// stage of it has a match. Such a description stands for "no trigger".
    /// One match in any stage is enough for it to be a trigger.
    pub open spec fn spec_is_null(&self) -> bool {
        forall|i: int| 0 <= i < self.stages().len() ==> (#[trigger] self.stages()[i]).len() == 0
    }

    /// Create new triggers from stages of matches.
    pub fn new(trigger_stages: Vec<Vec<Trigger>>) -> (r: Triggers)
        ensures
            r.stages() == Seq::new(trigger_stages@.len(), |i: int| trigger_stages@[i]@),
    {
        Triggers { stages: trigger_stages }
    }

    /// Whether the description stands for "no trigger".
    #[verifier::when_used_as_spec(spec_is_null)]
    pub fn is_null(&self) -> (r: bool)
        ensures
            r == self.spec_is_null(),
    {
        let mut i: usize = 0;
        while i < self.stages.len()
            invariant
                i <= self.stages.len(),
                forall|j: int| 0 <= j < i ==> (#[trigger] self.stages()[j]).len() == 0,
            decreases self.stages.len() - i,
        {
            if self.stages[i].len() != 0 {
                assert(self.stages()[i as int].len() != 0);
                return false;
            }
            i = i + 1;
        }
        true
    }

    /// The number of stages.
    pub fn stage_count(&self) -> (n: usize)
        ensures
            n == self.stages().len(),
    {
        self.stages.len()
    }

    /// The matches of one stage, in order.
    pub fn stage(&self, index: usize) -> (matches: &Vec<Trigger>)
        requires
            index < self.stages().len(),
        ensures
            matches@ == self.stages()[index as int],
    {
        &self.stages[index]
    }
}

/// One step in building the native trigger.
#[derive(Clone, Copy, Debug, PartialEq, Eq, Structural)]
pub enum TriggerCall {
    /// Add a stage to the native trigger.
    StageAdd,
    /// Add a match to the stage that was added last: the match at
    /// `position` of the stage number `stage`, with the native number of its
    /// condition and the bits of its threshold.
    MatchAdd { stage: usize, position: usize, trigger_match: i32, value: u32 },
}

/// The steps that build one stage: add the stage, then each of its matches
/// in order.
pub open spec fn stage_calls(matches: Seq<Trigger>, stage: int) -> Seq<TriggerCall> {
    seq![TriggerCall::StageAdd] + Seq::new(
        matches.len(),
        |j: int|
            TriggerCall::MatchAdd {
                stage: stage as usize,
                position: j as usize,
                trigger_match: matches[j].trigger_match.spec_raw(),
                value: matches[j].value,
            },
    )
}

/// The steps that build the first `n` stages, one stage after the other.
pub open spec fn native_calls(stages: Seq<Seq<Trigger>>, n: int) -> Seq<TriggerCall>
    decreases n,
{
    if n <= 0 {
        Seq::empty()
    } else {
        native_calls(stages, n - 1) + stage_calls(stages[n - 1], n - 1)
    }
}

impl Triggers {
    /// The steps that build the native trigger from the description: for
    /// each stage in order, add the stage and then its matches in order.
    pub fn native_calls(&self) -> (calls: Vec<TriggerCall>)
        ensures
            calls@ == native_calls(self.stages(), self.stages().len() as int),
    {
        let mut calls: Vec<TriggerCall> = Vec::new();
        let mut i: usize = 0;
        while i < self.stages.len()
            invariant
                i <= self.stages.len(),
                calls@ == native_calls(self.stages(), i as int),
            decreases self.stages.len() - i,
        {
            let stage = &self.stages[i];
            let ghost before = calls@;
            calls.push(TriggerCall::StageAdd);
            let mut j: usize = 0;
            while j < stage.len()
                invariant
                    j <= stage.len(),
                    i < self.stages.len(),
                    stage@ == self.stages()[i as int],
                    calls@ == before + stage_calls(stage@, i as int).take(j + 1),
                decreases stage.len() - j,
            {
                calls.push(
                    TriggerCall::MatchAdd {
                        stage: i,
                        position: j,
                        trigger_match: stage[j].trigger_match.raw(),
                        value: stage[j].value,
                    },
                );
                assert(stage_calls(stage@, i as int).take(j + 2) =~= stage_calls(
                    stage@,
                    i as int,
                ).take(j + 1).push(stage_calls(stage@, i as int)[j + 1]));
                j = j + 1;
            }
            assert(stage_calls(stage@, i as int).take(stage.len() + 1) =~= stage_calls(
                stage@,
                i as int,
            ));
            i = i + 1;
        }
        calls
    }
}

/// Building `n` stages of `m` matches each takes `n * (m + 1)` steps: the
/// stage number `i` is added at step `i * (m + 1)`, and its match number `j`
/// right after it at step `i * (m + 1) + 1 + j`. So the native trigger gets
/// exactly `n` stages with exactly `m` matches each, in the order given.
pub proof fn lemma_uniform_native_calls(stages: Seq<Seq<Trigger>>, n: nat, m: nat, upto: nat)
    requires
        stages.len() == n,
        forall|i: int| 0 <= i < n ==> (#[trigger] stages[i]).len() == m,
        upto <= n,
    ensures
        native_calls(stages, upto as int).len() == upto * (m + 1),
        forall|i: int|
            0 <= i < upto ==> #[trigger] native_calls(stages, upto as int)[i * (m + 1)]
                == TriggerCall::StageAdd,
        forall|i: int, j: int|
            0 <= i < upto && 0 <= j < m ==> #[trigger] native_calls(stages, upto as int)[i * (m + 1)
                + 1 + j] == (TriggerCall::MatchAdd {
                stage: i as usize,
                position: j as usize,
                trigger_match: stages[i][j].trigger_match.spec_raw(),
                value: stages[i][j].value,
            }),
    decreases upto,
{
    if upto > 0 {
        let k = (upto - 1) as nat;
        lemma_uniform_native_calls(stages, n, m, k);
        let before = native_calls(stages, k as int);
        let last = stage_calls(stages[k as int], k as int);
        let all = native_calls(stages, upto as int);
        assert(all == before + last);
        assert(stages[k as int].len() == m);
        assert(last.len() == m + 1);
        assert(upto * (m + 1) == k * (m + 1) + (m + 1)) by (nonlinear_arith)
            requires
                upto == k + 1,
        ;
        assert forall|i: int| 0 <= i < upto implies #[trigger] all[i * (m + 1)]
            == TriggerCall::StageAdd by {
            lemma_step_bounds(i, 0, k as int, m as int);
            if i < k {
                assert(all[i * (m + 1)] == before[i * (m + 1)]);
            } else {
                assert(all[i * (m + 1)] == last[0]);
            }
        }
        assert forall|i: int, j: int| 0 <= i < upto && 0 <= j < m implies #[trigger] all[i * (m
            + 1) + 1 + j] == (TriggerCall::MatchAdd {
            stage: i as usize,
            position: j as usize,
            trigger_match: stages[i][j].trigger_match.spec_raw(),
            value: stages[i][j].value,
        }) by {
            lemma_step_bounds(i, 1 + j, k as int, m as int);
            if i < k {
                assert(all[i * (m + 1) + 1 + j] == before[i * (m + 1) + 1 + j]);
            } else {
                assert(all[i * (m + 1) + 1 + j] == last[1 + j]);
            }
        }
    }
}

/// Step `offset` of stage `i` lies before the steps of every later stage.
proof fn lemma_step_bounds(i: int, offset: int, k: int, m: int)
    requires
        0 <= i <= k,
        0 <= offset <= m,
    ensures
        0 <= i * (m + 1) + offset,
        i < k ==> i * (m + 1) + offset < k * (m + 1),
        i == k ==> i * (m + 1) + offset == k * (m + 1) + offset,
{
    assert(0 <= i * (m + 1)) by (nonlinear_arith)
        requires
            0 <= i,
            0 <= m,
    ;
    if i < k {
        assert(i * (m + 1) + (m + 1) <= k * (m + 1)) by (nonlinear_arith)
            requires
                i + 1 <= k,
                0 <= m,
        ;
    }
}

/// A description built from `n` stages of `m` matches each holds exactly
/// these stages and matches, in their order, and it stands for "no trigger"
/// exactly when `n` or `m` is zero.
pub proof fn lemma_uniform_triggers(triggers: Triggers, stages: Seq<Seq<Trigger>>, n: nat, m: nat)
    requires
        triggers.stages() == stages,
        stages.len() == n,
        forall|i: int| 0 <= i < n ==> (#[trigger] stages[i]).len() == m,
    ensures
        triggers.stages().len() == n,
        forall|i: int| 0 <= i < n ==> (#[trigger] triggers.stages()[i]).len() == m,
        forall|i: int, j: int|
            0 <= i < n && 0 <= j < m ==> (#[trigger] triggers.stages()[i][j]) == stages[i][j],
        triggers.spec_is_null() <==> (n == 0 || m == 0),
{
    if n > 0 {
        assert(stages[0].len() == m);
    }
}

/// A description with a match in any of its stages is a trigger, whatever
/// the stages before it hold.
pub proof fn lemma_one_match_is_a_trigger(triggers: Triggers, stage: int)
    requires
        0 <= stage < triggers.stages().len(),
        triggers.stages()[stage].len() > 0,
    ensures
        !triggers.spec_is_null(),
{
}

} // verus!
