use rgsl::{check_iterations, check_shape, next_box, plan_sampling, SamplingPlan, Value, VegasMode};

#[test]
fn importance_with_one_bin_falls_back_to_stratified() {
    for calls in [0usize, 1, 2, 10, 1000, 100_000] {
        let a = plan_sampling(VegasMode::Importance, 5, 1, calls).unwrap();
        let b = plan_sampling(VegasMode::Stratified, 5, 1, calls).unwrap();
        assert_eq!(a, b);
        assert_eq!(a.mode, VegasMode::Stratified);
        assert!(!a.refines_grid());
    }
}

#[test]
fn fallback_plan_values() {
    let p = plan_sampling(VegasMode::Importance, 5, 1, 1000).unwrap();
    assert_eq!(
        p,
        SamplingPlan { mode: VegasMode::Stratified, boxes: 3, bins: 1, total_boxes: 243, calls_per_box: 4 }
    );
}

#[test]
fn importance_plan_values() {
    let p = plan_sampling(VegasMode::Importance, 3, 50, 10_000).unwrap();
    assert_eq!(
        p,
        SamplingPlan { mode: VegasMode::Importance, boxes: 17, bins: 50, total_boxes: 4913, calls_per_box: 2 }
    );
    assert!(p.refines_grid());
}

#[test]
fn importance_only_never_stratifies() {
    let p = plan_sampling(VegasMode::ImportanceOnly, 3, 50, 10_000).unwrap();
    assert_eq!(
        p,
        SamplingPlan { mode: VegasMode::ImportanceOnly, boxes: 1, bins: 50, total_boxes: 1, calls_per_box: 10_000 }
    );
    let q = plan_sampling(VegasMode::ImportanceOnly, 5, 1, 1000).unwrap();
    assert_eq!(q.mode, VegasMode::ImportanceOnly);
    assert!(q.refines_grid());
}

#[test]
fn stratified_plan_values() {
    let p = plan_sampling(VegasMode::Stratified, 1, 50, 1000).unwrap();
    assert_eq!(
        p,
        SamplingPlan { mode: VegasMode::Stratified, boxes: 500, bins: 50, total_boxes: 500, calls_per_box: 2 }
    );
}

#[test]
fn plan_with_no_calls() {
    let p = plan_sampling(VegasMode::Importance, 2, 4, 0).unwrap();
    assert_eq!(
        p,
        SamplingPlan { mode: VegasMode::Importance, boxes: 1, bins: 4, total_boxes: 1, calls_per_box: 2 }
    );
}

#[test]
fn plan_rejects_empty_shapes() {
    assert_eq!(plan_sampling(VegasMode::Importance, 0, 10, 100), Err(Value::Invalid));
    assert_eq!(plan_sampling(VegasMode::Stratified, 3, 0, 100), Err(Value::Invalid));
}

#[test]
fn shape_and_iteration_checks() {
    assert_eq!(check_shape(2, 10), Ok(()));
    assert_eq!(check_shape(0, 10), Err(Value::Invalid));
    assert_eq!(check_shape(2, 0), Err(Value::Invalid));
    assert_eq!(check_iterations(1), Ok(()));
    assert_eq!(check_iterations(0), Err(Value::Invalid));
}

#[test]
fn boxes_advance_in_order() {
    let mut b = vec![0usize, 1];
    assert!(next_box(&mut b, 2));
    assert_eq!(b, vec![1, 0]);
    assert!(next_box(&mut b, 2));
    assert_eq!(b, vec![1, 1]);
    assert!(!next_box(&mut b, 2));
    assert_eq!(b, vec![0, 0]);
}

#[test]
fn boxes_visit_every_box_once() {
    let mut b = vec![0usize; 3];
    let mut seen = 1;
    while next_box(&mut b, 3) {
        seen += 1;
    }
    assert_eq!(seen, 27);
    assert_eq!(b, vec![0, 0, 0]);
    let mut empty: Vec<usize> = Vec::new();
    assert!(!next_box(&mut empty, 3));
}
