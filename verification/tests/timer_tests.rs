use gallerica::timer::PausableInterval;
use gallerica::timer::TickResult;

#[test]
fn test_pause_schedules_remaining() {
    // Interval of 1000 ms; 500 ms elapse unpaused before the pause.
    let mut interval = PausableInterval::new(1000, 0);

    interval.pause(true, 500);

    // A paused timer answers at once, scheduling no wait.
    let (result, wait) = interval.tick(500);
    assert_eq!(result, TickResult::Paused);
    assert_eq!(wait, 0);

    // 17345 ms pass while paused; none of them count.
    interval.pause(false, 17845);

    let (result, wait) = interval.tick(17845);
    assert_eq!(result, TickResult::Completed);
    assert_eq!(wait, 500);
}

#[test]
fn test_unpaused_time_accumulates() {
    let mut interval = PausableInterval::new(100, 0);

    // 20 unpaused.
    interval.pause(true, 20);
    // 20 paused: this stretch should not count.
    interval.pause(false, 40);
    // 20 unpaused (total 40).
    interval.pause(true, 60);
    // neither should this one.
    interval.pause(false, 80);
    // 20 unpaused (total 60).

    let (result, wait) = interval.tick(100);
    assert_eq!(result, TickResult::Completed);
    assert_eq!(wait, 100 - 60);
}

#[test]
fn test_first_tick_is_immediate() {
    let mut interval = PausableInterval::new(500, 7);
    let (result, wait) = interval.tick(7);
    assert_eq!(result, TickResult::Completed);
    assert_eq!(wait, 0);
}

#[test]
fn test_periods_follow_completions() {
    let mut interval = PausableInterval::new(100, 0);
    let (_, wait) = interval.tick(0);
    assert_eq!(wait, 0);
    // The next period ends one interval after the completion.
    let (result, wait) = interval.tick(30);
    assert_eq!(result, TickResult::Completed);
    assert_eq!(wait, 70);
}

#[test]
fn test_late_tick_does_not_compound() {
    let mut interval = PausableInterval::new(10, 0);
    let (_, wait) = interval.tick(0);
    assert_eq!(wait, 0);
    // The caller shows up 25 units late: the missed periods are not
    // queued up; the tick completes at once and the schedule shifts.
    let (result, wait) = interval.tick(35);
    assert_eq!(result, TickResult::Completed);
    assert_eq!(wait, 0);
    let (_, wait) = interval.tick(40);
    assert_eq!(wait, 5);
}

#[test]
fn test_pause_is_idempotent() {
    let mut interval = PausableInterval::new(100, 0);
    interval.pause(true, 10);
    // Pausing an already paused timer changes nothing, whenever it is made.
    interval.pause(true, 50);
    interval.pause(false, 70);
    let (result, wait) = interval.tick(90);
    assert_eq!(result, TickResult::Completed);
    // 10 unpaused before the pause, 20 after the resume: 70 remain.
    assert_eq!(wait, 70);
}

#[test]
fn test_reset_discards_progress() {
    let mut interval = PausableInterval::new(100, 0);
    interval.pause(true, 60);
    interval.pause(false, 80);
    interval.reset(90);
    let (result, wait) = interval.tick(90);
    assert_eq!(result, TickResult::Completed);
    assert_eq!(wait, 100);
}

#[test]
fn test_is_paused_reports_flag() {
    let mut interval = PausableInterval::new(100, 0);
    assert!(!interval.is_paused());
    interval.pause(true, 5);
    assert!(interval.is_paused());
    interval.pause(false, 9);
    assert!(!interval.is_paused());
}
