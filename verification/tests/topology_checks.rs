use workpool::pipeline::StageOp;
use workpool::pipeline::apply_stage;
use workpool::pipeline::pipeline_run;
use workpool::pipeline::pipeline_value;
use workpool::topology::fan_in_merge;
use workpool::topology::fan_out_distribute;

#[test]
fn fan_in_single_producer_keeps_order() {
    let sources = vec![vec![10u64, 20, 30]];
    let schedule = vec![0usize, 0, 0];
    let merged = fan_in_merge(&sources, &schedule).unwrap();
    assert_eq!(merged, vec![10, 20, 30]);
}

#[test]
fn fan_in_interleaving_preserves_each_source_order() {
    let sources = vec![vec![1u64, 2], vec![10u64, 20]];
    let schedule = vec![1usize, 0, 1, 0];
    let merged = fan_in_merge(&sources, &schedule).unwrap();
    assert_eq!(merged, vec![10, 1, 20, 2]);
}

#[test]
fn fan_in_ten_producers_complete() {
    let sources: Vec<Vec<u64>> = (0..10u64).map(|i| vec![i]).collect();
    let schedule: Vec<usize> = (0..10usize).rev().collect();
    let merged = fan_in_merge(&sources, &schedule).unwrap();
    assert_eq!(merged, (0..10u64).rev().collect::<Vec<u64>>());
}

#[test]
fn fan_in_rejects_incomplete_schedule() {
    let sources = vec![vec![1u64, 2]];
    let schedule = vec![0usize];
    assert!(fan_in_merge(&sources, &schedule).is_none());
}

#[test]
fn fan_in_rejects_unknown_producer() {
    let sources = vec![vec![1u64]];
    let schedule = vec![1usize];
    assert!(fan_in_merge(&sources, &schedule).is_none());
}

#[test]
fn fan_out_splits_without_loss_or_duplication() {
    let values: Vec<u64> = (0..100u64).collect();
    let assign: Vec<usize> = (0..100usize).map(|k| k % 2).collect();
    let bins = fan_out_distribute(&values, &assign, 2).unwrap();
    assert_eq!(bins.len(), 2);
    assert_eq!(bins[0].len() + bins[1].len(), 100);
    let mut seen: Vec<u64> = bins.concat();
    seen.sort();
    assert_eq!(seen, values);
}

#[test]
fn fan_out_of_nothing_is_empty_everywhere() {
    let values: Vec<u64> = vec![];
    let assign: Vec<usize> = vec![];
    let bins = fan_out_distribute(&values, &assign, 3).unwrap();
    assert_eq!(bins, vec![Vec::<u64>::new(), Vec::new(), Vec::new()]);
}

#[test]
fn fan_out_single_value_reaches_exactly_one_consumer() {
    let values = vec![7u64];
    let assign = vec![1usize];
    let bins = fan_out_distribute(&values, &assign, 2).unwrap();
    assert!(bins[0].is_empty());
    assert_eq!(bins[1], vec![7]);
}

#[test]
fn fan_out_rejects_unknown_consumer() {
    let values = vec![7u64];
    let assign = vec![2usize];
    assert!(fan_out_distribute(&values, &assign, 2).is_none());
}

#[test]
fn pipeline_three_stages_multiply() {
    let stages = vec![StageOp::Mul(1), StageOp::Mul(2), StageOp::Mul(3)];
    let out = pipeline_run(&stages, &vec![1, 2, 3]).unwrap();
    assert_eq!(out, vec![6, 12, 18]);
}

#[test]
fn pipeline_value_chains_exactly() {
    let stages = vec![StageOp::Add(1), StageOp::Mul(10), StageOp::Add(-5)];
    assert_eq!(pipeline_value(&stages, 4), Some(45));
}

#[test]
fn pipeline_reports_unrepresentable_intermediate() {
    let stages = vec![StageOp::Mul(2)];
    assert_eq!(pipeline_value(&stages, i64::MAX), None);
    assert!(pipeline_run(&stages, &vec![1, i64::MAX]).is_none());
}

#[test]
fn stage_applies_one_transform() {
    assert_eq!(apply_stage(StageOp::Add(3), 4), Some(7));
    assert_eq!(apply_stage(StageOp::Mul(-2), 6), Some(-12));
    assert_eq!(apply_stage(StageOp::Add(1), i64::MAX), None);
}

#[test]
fn fan_in_keeps_equal_values_apart_by_position() {
    let sources = vec![vec![5u64, 5], vec![5u64]];
    let schedule = vec![0usize, 1, 0];
    let merged = fan_in_merge(&sources, &schedule).unwrap();
    assert_eq!(merged, vec![5, 5, 5]);
}
