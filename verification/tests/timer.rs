use trap_core::timer::TimerMultiplexer;

fn check_comparator(timer: &TimerMultiplexer, deadlines: &[usize]) {
    assert_eq!(timer.comparator(), deadlines.iter().copied().min());
    assert_eq!(timer.len(), deadlines.len());
    assert_eq!(timer.is_empty(), deadlines.is_empty());
}

#[test]
fn new_timer_has_nothing_programmed() {
    let timer = TimerMultiplexer::new();
    assert_eq!(timer.comparator(), None);
    assert_eq!(timer.len(), 0);
    assert!(timer.is_empty());
    assert_eq!(timer.owner_of(0), None);
    assert_eq!(timer.deadline_of(0), None);
}

#[test]
fn comparator_is_the_minimum_after_every_step() {
    let mut timer = TimerMultiplexer::new();
    check_comparator(&timer, &[]);
    assert_eq!(timer.arm(500, 1), 500);
    check_comparator(&timer, &[500]);
    assert_eq!(timer.arm(300, 2), 300);
    check_comparator(&timer, &[500, 300]);
    assert_eq!(timer.arm(900, 3), 300);
    check_comparator(&timer, &[500, 300, 900]);
    assert_eq!(timer.pop_earliest(), Some((300, 2)));
    check_comparator(&timer, &[500, 900]);
    assert_eq!(timer.arm(100, 0), 100);
    check_comparator(&timer, &[500, 900, 100]);
    assert_eq!(timer.pop_earliest(), Some((100, 0)));
    check_comparator(&timer, &[500, 900]);
    assert_eq!(timer.pop_earliest(), Some((500, 1)));
    check_comparator(&timer, &[900]);
    assert_eq!(timer.pop_earliest(), Some((900, 3)));
    check_comparator(&timer, &[]);
    assert_eq!(timer.pop_earliest(), None);
    check_comparator(&timer, &[]);
}

#[test]
fn deadlines_leave_in_increasing_order() {
    let mut timer = TimerMultiplexer::new();
    for (deadline, pid) in [(40, 4), (10, 1), (30, 3), (20, 2), (50, 5)] {
        timer.arm(deadline, pid);
    }
    let mut popped = Vec::new();
    while let Some(entry) = timer.pop_earliest() {
        popped.push(entry);
    }
    assert_eq!(popped, vec![(10, 1), (20, 2), (30, 3), (40, 4), (50, 5)]);
}

#[test]
fn arming_again_replaces_the_deadline_of_the_process() {
    let mut timer = TimerMultiplexer::new();
    timer.arm(1000, 7);
    assert_eq!(timer.arm(2000, 7), 2000);
    assert_eq!(timer.len(), 1);
    assert_eq!(timer.deadline_of(7), Some(2000));
    assert_eq!(timer.owner_of(1000), None);
    assert_eq!(timer.owner_of(2000), Some(7));
    assert_eq!(timer.comparator(), Some(2000));
}

#[test]
fn arming_again_may_move_the_comparator_back() {
    let mut timer = TimerMultiplexer::new();
    timer.arm(100, 1);
    timer.arm(200, 2);
    assert_eq!(timer.comparator(), Some(100));
    assert_eq!(timer.arm(300, 1), 200);
    assert_eq!(timer.comparator(), Some(200));
    assert_eq!(timer.deadline_of(1), Some(300));
    assert_eq!(timer.len(), 2);
}

#[test]
fn a_deadline_has_one_owner() {
    let mut timer = TimerMultiplexer::new();
    timer.arm(100, 1);
    timer.arm(100, 2);
    assert_eq!(timer.len(), 1);
    assert_eq!(timer.owner_of(100), Some(2));
    assert_eq!(timer.deadline_of(1), None);
    assert_eq!(timer.deadline_of(2), Some(100));
    assert_eq!(timer.pop_earliest(), Some((100, 2)));
    assert_eq!(timer.pop_earliest(), None);
}

#[test]
fn arming_the_same_request_twice_changes_nothing() {
    let mut timer = TimerMultiplexer::new();
    timer.arm(100, 1);
    timer.arm(100, 1);
    assert_eq!(timer.len(), 1);
    assert_eq!(timer.owner_of(100), Some(1));
    assert_eq!(timer.deadline_of(1), Some(100));
}

#[test]
fn the_kernel_tick_has_one_deadline_too() {
    let mut timer = TimerMultiplexer::new();
    timer.arm(10, 0);
    timer.arm(20, 0);
    assert_eq!(timer.len(), 1);
    assert_eq!(timer.pop_earliest(), Some((20, 0)));
}

#[test]
fn deadlines_at_the_ends_of_the_range() {
    let mut timer = TimerMultiplexer::new();
    assert_eq!(timer.arm(usize::MAX, usize::MAX), usize::MAX);
    assert_eq!(timer.arm(0, 1), 0);
    assert_eq!(timer.pop_earliest(), Some((0, 1)));
    assert_eq!(timer.comparator(), Some(usize::MAX));
    assert_eq!(timer.pop_earliest(), Some((usize::MAX, usize::MAX)));
    assert_eq!(timer.comparator(), None);
}
