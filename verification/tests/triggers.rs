use sigrok::device::Channel;
use sigrok::trigger::TriggerCall;
use sigrok::{Trigger, TriggerType, Triggers};

fn trigger(index: u32, kind: TriggerType, value: f32) -> Trigger {
    Trigger {
        channel: Channel::new(index, None),
        trigger_match: kind,
        value: value.to_bits(),
    }
}

fn uniform(n: usize, m: usize) -> Triggers {
    let mut stages = vec![];
    for i in 0..n {
        let mut stage = vec![];
        for j in 0..m {
            stage.push(trigger((i * m + j) as u32, TriggerType::Rising, 0.0));
        }
        stages.push(stage);
    }
    Triggers::new(stages)
}

#[test]
fn stages_and_matches_keep_their_number_and_order() {
    for n in 0..4 {
        for m in 0..4 {
            let triggers = uniform(n, m);
            assert_eq!(triggers.stage_count(), n);
            for i in 0..n {
                let stage = triggers.stage(i);
                assert_eq!(stage.len(), m);
                for j in 0..m {
                    assert_eq!(stage[j].channel.index(), (i * m + j) as u32);
                    assert_eq!(stage[j].trigger_match, TriggerType::Rising);
                }
            }
            assert_eq!(triggers.is_null(), n == 0 || m == 0);
        }
    }
}

#[test]
fn no_stage_is_no_trigger() {
    assert!(Triggers::new(vec![]).is_null());
}

#[test]
fn stages_without_any_match_are_no_trigger() {
    assert!(Triggers::new(vec![vec![]]).is_null());
    assert!(Triggers::new(vec![vec![], vec![], vec![]]).is_null());
}

#[test]
fn one_match_in_any_stage_is_a_trigger() {
    let later = Triggers::new(vec![vec![], vec![trigger(1, TriggerType::One, 0.0)]]);
    assert!(!later.is_null());
    assert_eq!(later.stage_count(), 2);
    assert_eq!(later.stage(0).len(), 0);
    assert_eq!(later.stage(1).len(), 1);
    assert_eq!(later.stage(1)[0].channel.index(), 1);
    assert_eq!(
        later.native_calls(),
        vec![
            TriggerCall::StageAdd,
            TriggerCall::StageAdd,
            TriggerCall::MatchAdd { stage: 1, position: 0, trigger_match: 2, value: 0 },
        ]
    );
    let first = Triggers::new(vec![vec![trigger(1, TriggerType::One, 0.0)], vec![]]);
    assert!(!first.is_null());
    let last = Triggers::new(vec![vec![], vec![], vec![trigger(2, TriggerType::Edge, 0.0)]]);
    assert!(!last.is_null());
}

#[test]
fn analog_threshold_keeps_its_bits() {
    let triggers = Triggers::new(vec![vec![
        trigger(8, TriggerType::Over, 1.5),
        trigger(9, TriggerType::Under, -0.25),
    ]]);
    let stage = triggers.stage(0);
    assert_eq!(f32::from_bits(stage[0].value), 1.5);
    assert_eq!(f32::from_bits(stage[1].value), -0.25);
    assert_eq!(stage[0].trigger_match, TriggerType::Over);
    assert_eq!(stage[1].trigger_match, TriggerType::Under);
}

#[test]
fn native_trigger_is_built_stage_by_stage() {
    assert!(Triggers::new(vec![]).native_calls().is_empty());
    assert_eq!(
        Triggers::new(vec![vec![], vec![]]).native_calls(),
        vec![TriggerCall::StageAdd, TriggerCall::StageAdd]
    );
    let triggers = Triggers::new(vec![
        vec![trigger(0, TriggerType::Falling, 0.0), trigger(1, TriggerType::Rising, 0.0)],
        vec![trigger(8, TriggerType::Over, 1.5)],
    ]);
    assert_eq!(
        triggers.native_calls(),
        vec![
            TriggerCall::StageAdd,
            TriggerCall::MatchAdd { stage: 0, position: 0, trigger_match: 4, value: 0 },
            TriggerCall::MatchAdd { stage: 0, position: 1, trigger_match: 3, value: 0 },
            TriggerCall::StageAdd,
            TriggerCall::MatchAdd {
                stage: 1,
                position: 0,
                trigger_match: 6,
                value: 1.5f32.to_bits()
            },
        ]
    );
}

#[test]
fn uniform_triggers_take_n_times_m_plus_one_steps() {
    for n in 0..4 {
        for m in 0..4 {
            let calls = uniform(n, m).native_calls();
            assert_eq!(calls.len(), n * (m + 1));
            for i in 0..n {
                assert_eq!(calls[i * (m + 1)], TriggerCall::StageAdd);
                for j in 0..m {
                    assert_eq!(
                        calls[i * (m + 1) + 1 + j],
                        TriggerCall::MatchAdd {
                            stage: i,
                            position: j,
                            trigger_match: TriggerType::Rising.raw(),
                            value: 0
                        }
                    );
                }
            }
        }
    }
}
