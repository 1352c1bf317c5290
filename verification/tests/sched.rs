use blinky::sched::ResourceId;
use blinky::sched::TaskId;
use blinky::sched::Threshold;
use blinky::sched::accesses;
use blinky::sched::can_preempt;
use blinky::sched::ceiling;
use blinky::sched::priority;
use blinky::sched::validate_config;

#[test]
fn wiring_is_valid() {
    assert!(validate_config());
}

#[test]
fn priorities_and_ceilings() {
    assert_eq!(priority(TaskId::Blink), 2);
    assert_eq!(priority(TaskId::Debounce), 1);
    assert_eq!(ceiling(ResourceId::Led), 2);
    assert_eq!(ceiling(ResourceId::Count), 2);
    assert_eq!(ceiling(ResourceId::Interval), 2);
}

#[test]
fn access_lists() {
    assert!(accesses(TaskId::Blink, ResourceId::Led));
    assert!(accesses(TaskId::Blink, ResourceId::Count));
    assert!(accesses(TaskId::Blink, ResourceId::Interval));
    assert!(accesses(TaskId::Debounce, ResourceId::Led));
    assert!(accesses(TaskId::Debounce, ResourceId::Interval));
    assert!(!accesses(TaskId::Debounce, ResourceId::Count));
}

#[test]
fn fresh_context_runs_at_base_priority() {
    let blink = Threshold::new(TaskId::Blink);
    let debounce = Threshold::new(TaskId::Debounce);
    assert_eq!(blink.effective_priority(), 2);
    assert_eq!(debounce.effective_priority(), 1);
}

#[test]
fn claim_raises_to_ceiling_and_blocks_the_blink_task() {
    let mut t = Threshold::new(TaskId::Debounce);
    assert!(can_preempt(TaskId::Blink, &t));
    t.claim_enter(ResourceId::Led);
    assert_eq!(t.effective_priority(), 2);
    assert!(!can_preempt(TaskId::Blink, &t));
    t.claim_exit();
    assert_eq!(t.effective_priority(), 1);
    assert!(can_preempt(TaskId::Blink, &t));
}

#[test]
fn nested_claims_restore_in_order() {
    let mut t = Threshold::new(TaskId::Debounce);
    t.claim_enter(ResourceId::Led);
    t.claim_enter(ResourceId::Interval);
    assert_eq!(t.claims.len(), 2);
    assert_eq!(t.effective_priority(), 2);
    t.claim_exit();
    assert_eq!(t.claims.len(), 1);
    assert_eq!(t.effective_priority(), 2);
    t.claim_exit();
    assert_eq!(t.claims.len(), 0);
    assert_eq!(t.effective_priority(), 1);
}

#[test]
fn equal_priority_never_preempts() {
    let blink = Threshold::new(TaskId::Blink);
    assert!(!can_preempt(TaskId::Blink, &blink));
    assert!(!can_preempt(TaskId::Debounce, &blink));
}
