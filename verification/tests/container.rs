use reusable_box::boxed::ReusableBoxFuture;
use reusable_box::layout::TaskLayout;
use reusable_box::task::PollContext;
use reusable_box::task::ScriptedTask;
use reusable_box::task::TaskPoll;
use reusable_box::task::Teardown;

fn cx(tag: u64) -> PollContext {
    PollContext { tag }
}

#[test]
fn allocation_reuse_keeps_address() {
    let initial = ScriptedTask::new(0, TaskLayout::new(8, 8), 0, 1u64, false);
    let mut b = ReusableBoxFuture::new(initial);
    let a = ScriptedTask::new(1, TaskLayout::new(8, 8), 0, 10u64, false);
    b.set(a);
    let addr = b.address();
    let second = ScriptedTask::new(2, TaskLayout::new(8, 8), 0, 20u64, false);
    b.set(second);
    assert_eq!(b.address(), addr);
}

#[test]
fn reallocation_on_mismatch() {
    let initial = ScriptedTask::new(0, TaskLayout::new(8, 8), 0, 1u64, false);
    let mut b = ReusableBoxFuture::new(initial);
    let a = ScriptedTask::new(1, TaskLayout::new(8, 8), 0, 10u64, false);
    b.set(a);
    let addr = b.address();
    let bigger = ScriptedTask::new(2, TaskLayout::new(16, 8), 0, 20u64, false);
    b.set(bigger);
    assert_ne!(b.address(), addr);
    assert_eq!(b.stored_layout(), TaskLayout::new(16, 8));
}

#[test]
fn realloc_on_same_size_different_align() {
    let initial = ScriptedTask::new(0, TaskLayout::new(8, 4), 0, 1u64, false);
    let mut b = ReusableBoxFuture::new(initial);
    let addr = b.address();
    let other = ScriptedTask::new(1, TaskLayout::new(8, 8), 0, 2u64, false);
    b.set(other);
    assert_ne!(b.address(), addr);
    assert_eq!(b.stored_layout(), TaskLayout::new(8, 8));
}

#[test]
fn try_set_rejection_preserves_state() {
    let a = ScriptedTask::new(1, TaskLayout::new(8, 8), 1, 11u64, false);
    let mut b = ReusableBoxFuture::new(a);
    let addr = b.address();
    let rejected_task = ScriptedTask::new(2, TaskLayout::new(16, 8), 0, 22u64, false);
    let r = b.try_set(rejected_task);
    match r {
        Err(back) => {
            // The rejected task comes back unchanged.
            assert_eq!(back.id(), 2);
            assert_eq!(back.layout(), TaskLayout::new(16, 8));
            assert!(back.is_live());
        }
        Ok(_) => panic!("a mismatched try_set must be rejected"),
    }
    assert_eq!(b.address(), addr);
    // A subsequent poll still drives A: one pending step, then A's value.
    assert_eq!(b.poll(&cx(0)), TaskPoll::Pending);
    assert_eq!(b.poll(&cx(0)), TaskPoll::Ready(11));
}

#[test]
fn try_set_acceptance() {
    let a = ScriptedTask::new(1, TaskLayout::new(8, 8), 0, 11u64, false);
    let mut b = ReusableBoxFuture::new(a);
    let addr = b.address();
    let c = ScriptedTask::new(3, TaskLayout::new(8, 8), 0, 33u64, false);
    let r = b.try_set(c);
    match r {
        Ok(report) => {
            assert_eq!(report.destroyed_id, 1);
            assert_eq!(report.outcome, Teardown::Clean);
        }
        Err(_) => panic!("a matching try_set must be accepted"),
    }
    assert_eq!(b.address(), addr);
    // Polling now drives C, not A.
    assert_eq!(b.poll(&cx(0)), TaskPoll::Ready(33));
}

#[test]
fn single_destruction() {
    let a = ScriptedTask::new(1, TaskLayout::new(8, 8), 0, 10u64, false);
    let mut b = ReusableBoxFuture::new(a);
    let mut destroyed: Vec<u64> = Vec::new();
    let second = ScriptedTask::new(2, TaskLayout::new(8, 8), 0, 20u64, false);
    destroyed.push(b.set(second).destroyed_id);
    let third = ScriptedTask::new(3, TaskLayout::new(32, 8), 0, 30u64, false);
    destroyed.push(b.set(third).destroyed_id);
    destroyed.push(b.close().destroyed_id);
    // Each occupant is destroyed exactly once: the replaced ones at their own
    // replacement time, the last one when the container is destroyed.
    assert_eq!(destroyed, vec![1, 2, 3]);
}

#[test]
fn poll_transparency() {
    // A task that yields "not complete" on its first two drives and completes
    // with its value on the third, driven unwrapped:
    let mut bare = ScriptedTask::new(1, TaskLayout::new(8, 8), 2, 9u64, false);
    let direct = vec![bare.poll(&cx(0)), bare.poll(&cx(1)), bare.poll(&cx(2))];
    // The same script driven through the container:
    let wrapped_task = ScriptedTask::new(1, TaskLayout::new(8, 8), 2, 9u64, false);
    let mut b = ReusableBoxFuture::new(wrapped_task);
    let through = vec![b.poll(&cx(0)), b.poll(&cx(1)), b.poll(&cx(2))];
    assert_eq!(direct, through);
    assert_eq!(
        through,
        vec![TaskPoll::Pending, TaskPoll::Pending, TaskPoll::Ready(9)]
    );
}

#[test]
fn teardown_fault_during_replace_leaves_valid_state() {
    let raising = ScriptedTask::new(1, TaskLayout::new(8, 8), 0, 10u64, true);
    let mut b = ReusableBoxFuture::new(raising);
    let addr = b.address();
    let replacement = ScriptedTask::new(2, TaskLayout::new(8, 8), 1, 20u64, false);
    let report = b.set(replacement);
    // The fault from the old occupant's teardown is surfaced to the caller...
    assert_eq!(report.outcome, Teardown::Raised);
    assert_eq!(report.destroyed_id, 1);
    // ...and the container is valid: the slot was overwritten despite the
    // teardown failure, so polling drives the new task, in the same place.
    assert_eq!(b.address(), addr);
    assert_eq!(b.poll(&cx(0)), TaskPoll::Pending);
    assert_eq!(b.poll(&cx(0)), TaskPoll::Ready(20));
}

#[test]
fn teardown_fault_is_reported_on_rebuild_too() {
    let raising = ScriptedTask::new(1, TaskLayout::new(8, 8), 0, 10u64, true);
    let mut b = ReusableBoxFuture::new(raising);
    let bigger = ScriptedTask::new(2, TaskLayout::new(24, 8), 0, 20u64, false);
    let report = b.set(bigger);
    assert_eq!(report.outcome, Teardown::Raised);
    assert_eq!(report.destroyed_id, 1);
    assert_eq!(b.stored_layout(), TaskLayout::new(24, 8));
    assert_eq!(b.poll(&cx(0)), TaskPoll::Ready(20));
}

#[test]
fn teardown_fault_at_close_is_reported() {
    let raising = ScriptedTask::new(7, TaskLayout::new(8, 8), 0, 10u64, true);
    let b = ReusableBoxFuture::new(raising);
    let report = b.close();
    assert_eq!(report.destroyed_id, 7);
    assert_eq!(report.outcome, Teardown::Raised);
}

#[test]
fn concrete_scenario() {
    // Container constructed around a task of 8-byte size, 8-byte alignment.
    let first = ScriptedTask::new(1, TaskLayout::new(8, 8), 0, 100u64, false);
    let mut b = ReusableBoxFuture::new(first);
    let addr = b.address();
    // A 16/8 task is handed back as rejected; the address is unchanged.
    let wide = ScriptedTask::new(2, TaskLayout::new(16, 8), 0, 200u64, false);
    match b.try_set(wide) {
        Err(back) => {
            assert_eq!(back.id(), 2);
            assert_eq!(back.layout(), TaskLayout::new(16, 8));
        }
        Ok(_) => panic!("the 16/8 task must be rejected"),
    }
    assert_eq!(b.address(), addr);
    // Another 8/8 task is accepted; the address is still unchanged.
    let third = ScriptedTask::new(3, TaskLayout::new(8, 8), 1, 300u64, false);
    assert!(b.try_set(third).is_ok());
    assert_eq!(b.address(), addr);
    // Polling afterward reflects the new task's behaviour.
    assert_eq!(b.poll(&cx(0)), TaskPoll::Pending);
    assert_eq!(b.poll(&cx(0)), TaskPoll::Ready(300));
}

#[test]
fn context_is_forwarded_verbatim() {
    let task = ScriptedTask::new(1, TaskLayout::new(8, 8), 3, 5u64, false);
    let mut b = ReusableBoxFuture::new(task);
    assert_eq!(b.get_pin().last_tag(), None);
    b.poll(&cx(41));
    assert_eq!(b.get_pin().last_tag(), Some(41));
    b.poll(&cx(42));
    assert_eq!(b.get_pin().last_tag(), Some(42));
}

#[test]
fn get_pin_drives_the_occupant_in_place() {
    let task = ScriptedTask::new(1, TaskLayout::new(8, 8), 1, 6u64, false);
    let mut b = ReusableBoxFuture::new(task);
    let addr = b.address();
    let occupant = b.get_pin();
    assert_eq!(occupant.id(), 1);
    assert_eq!(occupant.poll(&cx(0)), TaskPoll::Pending);
    assert_eq!(b.get_pin().poll(&cx(0)), TaskPoll::Ready(6));
    assert_eq!(b.address(), addr);
    assert!(!b.get_pin().is_live());
}

#[test]
fn describe_reports_the_kind_only() {
    let task = ScriptedTask::new(1, TaskLayout::new(8, 8), 0, 2u64, false);
    let b = ReusableBoxFuture::new(task);
    assert_eq!(b.describe(), "ReusableBoxFuture");
}

#[test]
fn layout_equality_is_by_size_and_alignment() {
    assert_eq!(TaskLayout::new(8, 8), TaskLayout::new(8, 8));
    assert_ne!(TaskLayout::new(8, 8), TaskLayout::new(16, 8));
    assert_ne!(TaskLayout::new(8, 4), TaskLayout::new(8, 8));
}

#[test]
fn construction_records_the_task_footprint() {
    let task = ScriptedTask::new(9, TaskLayout::new(48, 16), 0, 4u64, false);
    let mut b = ReusableBoxFuture::new(task);
    assert_eq!(b.stored_layout(), TaskLayout::new(48, 16));
    assert_eq!(b.get_pin().id(), 9);
}
