use removebg::model::{InitPlan, ModelSlot};

#[test]
fn first_request_fetches_when_file_is_missing() {
    let slot = ModelSlot::new();
    assert_eq!(slot.plan(false), InitPlan::FetchThenLoad);
}

#[test]
fn first_request_loads_when_file_is_cached() {
    let slot = ModelSlot::new();
    assert_eq!(slot.plan(true), InitPlan::Load);
}

#[test]
fn failed_attempt_is_tried_again() {
    let mut slot = ModelSlot::new();
    slot.record(false);
    assert!(!slot.ready);
    assert_eq!(slot.plan(true), InitPlan::Load);
}

#[test]
fn model_is_loaded_once_over_many_requests() {
    let mut slot = ModelSlot::new();
    let mut loads = 0;
    let mut fetches = 0;
    let mut present = false;
    for _ in 0..10 {
        match slot.plan(present) {
            InitPlan::Reuse => {}
            InitPlan::Load => {
                loads += 1;
                slot.record(true);
            }
            InitPlan::FetchThenLoad => {
                fetches += 1;
                present = true;
                loads += 1;
                slot.record(true);
            }
        }
    }
    assert_eq!(loads, 1);
    assert_eq!(fetches, 1);
    assert!(slot.ready);
    assert_eq!(slot.plan(false), InitPlan::Reuse);
}
