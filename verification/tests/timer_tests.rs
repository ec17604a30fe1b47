use hecs_arkanoid::timer::{Timer, TypedTimer, ForEnemySpawning};

#[test]
fn timer_new_keeps_interval_and_countdown() {
    let timer = Timer::new(30, 7);
    assert_eq!(timer.interval, 30);
    assert_eq!(timer.countdown, 7);
}

#[test]
fn typed_timer_counts_down_to_zero_and_stays() {
    let mut timer: TypedTimer<ForEnemySpawning> = TypedTimer::new(5, 2);
    assert_eq!(timer.get_countdown(), 2);
    timer.step();
    assert_eq!(timer.get_countdown(), 1);
    timer.step();
    assert_eq!(timer.get_countdown(), 0);
    timer.step();
    assert_eq!(timer.get_countdown(), 0);
}

#[test]
fn typed_timer_reset_restarts_from_interval() {
    let mut timer: TypedTimer<ForEnemySpawning> = TypedTimer::new(5, 0);
    timer.reset();
    assert_eq!(timer.get_countdown(), 5);
}
