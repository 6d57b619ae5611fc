use bevy_godot4::delta_timer::{delta_step, SystemDeltaTimer};

#[test]
fn first_step_returns_zero() {
    assert_eq!(delta_step(None, 500), (0, Some(500)));
}

#[test]
fn later_step_returns_time_since_previous() {
    assert_eq!(delta_step(Some(100), 350), (250, Some(350)));
    assert_eq!(delta_step(Some(350), 350), (0, Some(350)));
}

#[test]
fn earlier_reading_counts_as_no_time() {
    assert_eq!(delta_step(Some(400), 300), (0, Some(300)));
}

#[test]
fn deltas_of_a_run_add_up_to_its_span() {
    let readings: Vec<u128> = vec![10, 15, 15, 40, 1000];
    let mut last = None;
    let mut total: u128 = 0;
    for r in readings {
        let (d, next) = delta_step(last, r);
        total += d;
        last = next;
    }
    assert_eq!(total, 990);
}

#[test]
fn first_delta_of_a_timer_is_zero() {
    let mut timer = SystemDeltaTimer::default();
    assert_eq!(timer.delta(), 0);
}

#[test]
fn second_delta_measures_from_first_call() {
    let mut timer = SystemDeltaTimer::new();
    timer.delta();
    let second = timer.delta();
    assert!(second < 60_000_000_000);
}
