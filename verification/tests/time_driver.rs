use std::sync::atomic::{AtomicUsize, Ordering};
use std::sync::Arc;
use std::task::{Wake, Waker};

use rpi_hal_embassy::time_driver::{
    on_timer_irq, AlarmAction, AlarmEvent, TimeDriver, QUEUE_CAPACITY,
};

struct Count(AtomicUsize);

impl Wake for Count {
    fn wake(self: Arc<Self>) {
        self.0.fetch_add(1, Ordering::Relaxed);
    }
}

fn task() -> (Arc<Count>, Waker) {
    let count = Arc::new(Count(AtomicUsize::new(0)));
    (count.clone(), Waker::from(count))
}

fn woken(count: &Arc<Count>) -> usize {
    count.0.load(Ordering::Relaxed)
}

#[test]
fn an_interrupt_is_acknowledged_before_anything_is_drained() {
    let mut driver = TimeDriver::new();
    assert_eq!(on_timer_irq(), AlarmAction::ClearMatch);
    assert_eq!(driver.step(AlarmEvent::MatchCleared), AlarmAction::ReadClock);
}

#[test]
fn an_empty_queue_arms_the_largest_instant() {
    let mut driver = TimeDriver::new();
    assert_eq!(driver.step(AlarmEvent::Clock(7)), AlarmAction::Arm(u64::MAX));
    assert_eq!(driver.step(AlarmEvent::Armed), AlarmAction::Settled);
}

#[test]
fn the_earliest_deadline_is_armed() {
    let mut driver = TimeDriver::new();
    let (_first, first) = task();
    let (_second, second) = task();
    let (_third, third) = task();
    assert_eq!(driver.schedule_wake(300, &first), AlarmAction::ReadClock);
    assert_eq!(driver.schedule_wake(100, &second), AlarmAction::ReadClock);
    assert_eq!(driver.schedule_wake(200, &third), AlarmAction::ReadClock);
    assert_eq!(driver.step(AlarmEvent::Clock(50)), AlarmAction::Arm(100));
}

#[test]
fn what_is_due_is_woken_and_the_next_deadline_armed() {
    let mut driver = TimeDriver::new();
    let (early, early_waker) = task();
    let (late, late_waker) = task();
    driver.schedule_wake(100, &early_waker);
    driver.schedule_wake(200, &late_waker);
    assert_eq!(driver.step(AlarmEvent::Clock(100)), AlarmAction::Arm(200));
    assert_eq!(woken(&early), 1);
    assert_eq!(woken(&late), 0);
}

#[test]
fn a_missed_deadline_is_drained_and_the_next_tried() {
    let mut driver = TimeDriver::new();
    let (early, early_waker) = task();
    let (late, late_waker) = task();
    driver.schedule_wake(100, &early_waker);
    driver.schedule_wake(101, &late_waker);
    assert_eq!(driver.step(AlarmEvent::Clock(99)), AlarmAction::Arm(100));
    assert_eq!(driver.step(AlarmEvent::Missed), AlarmAction::ReadClock);
    assert_eq!(driver.step(AlarmEvent::Clock(100)), AlarmAction::Arm(101));
    assert_eq!(driver.step(AlarmEvent::Missed), AlarmAction::ReadClock);
    assert_eq!(driver.step(AlarmEvent::Clock(102)), AlarmAction::Arm(u64::MAX));
    assert_eq!(driver.step(AlarmEvent::Armed), AlarmAction::Settled);
    assert_eq!(woken(&early), 1);
    assert_eq!(woken(&late), 1);
}

#[test]
fn a_later_deadline_leaves_the_alarm_alone() {
    let mut driver = TimeDriver::new();
    let (_count, waker) = task();
    assert_eq!(driver.schedule_wake(100, &waker), AlarmAction::ReadClock);
    assert_eq!(driver.schedule_wake(150, &waker), AlarmAction::Settled);
    assert_eq!(driver.schedule_wake(100, &waker), AlarmAction::Settled);
    assert_eq!(driver.step(AlarmEvent::Clock(0)), AlarmAction::Arm(100));
}

#[test]
fn an_earlier_deadline_replaces_the_tasks_own() {
    let mut driver = TimeDriver::new();
    let (count, waker) = task();
    driver.schedule_wake(100, &waker);
    assert_eq!(driver.schedule_wake(60, &waker), AlarmAction::ReadClock);
    assert_eq!(driver.step(AlarmEvent::Clock(0)), AlarmAction::Arm(60));
    assert_eq!(driver.step(AlarmEvent::Clock(60)), AlarmAction::Arm(u64::MAX));
    assert_eq!(woken(&count), 1);
}

#[test]
fn a_spurious_interrupt_arms_the_same_deadline() {
    let mut driver = TimeDriver::new();
    let (count, waker) = task();
    driver.schedule_wake(100, &waker);
    assert_eq!(driver.step(AlarmEvent::Clock(1)), AlarmAction::Arm(100));
    assert_eq!(driver.step(AlarmEvent::MatchCleared), AlarmAction::ReadClock);
    assert_eq!(driver.step(AlarmEvent::Clock(2)), AlarmAction::Arm(100));
    assert_eq!(woken(&count), 0);
}

#[test]
fn a_full_queue_wakes_one_task_to_make_room() {
    let mut driver = TimeDriver::new();
    let tasks: Vec<(Arc<Count>, Waker)> = (0..QUEUE_CAPACITY).map(|_| task()).collect();
    for (_, waker) in &tasks {
        assert_eq!(driver.schedule_wake(500, waker), AlarmAction::ReadClock);
    }
    assert_eq!(tasks.iter().map(|(count, _)| woken(count)).sum::<usize>(), 0);
    let (extra, waker) = task();
    assert_eq!(driver.schedule_wake(400, &waker), AlarmAction::ReadClock);
    assert_eq!(tasks.iter().map(|(count, _)| woken(count)).sum::<usize>(), 1);
    assert_eq!(woken(&extra), 0);
    assert_eq!(driver.step(AlarmEvent::Clock(0)), AlarmAction::Arm(400));
}

#[test]
fn every_deadline_is_either_pending_or_woken() {
    let mut driver = TimeDriver::new();
    let tasks: Vec<(Arc<Count>, Waker)> = (0..10).map(|_| task()).collect();
    for (index, (_, waker)) in tasks.iter().enumerate() {
        driver.schedule_wake(index as u64 * 100, waker);
    }
    assert_eq!(driver.step(AlarmEvent::Clock(450)), AlarmAction::Arm(500));
    let wakes: Vec<usize> = tasks.iter().map(|(count, _)| woken(count)).collect();
    assert_eq!(wakes, vec![1, 1, 1, 1, 1, 0, 0, 0, 0, 0]);
    assert_eq!(driver.step(AlarmEvent::Clock(u64::MAX)), AlarmAction::Arm(u64::MAX));
    let wakes: Vec<usize> = tasks.iter().map(|(count, _)| woken(count)).collect();
    assert_eq!(wakes, vec![1; 10]);
}
