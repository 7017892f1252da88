use marge::events::{map_event, AppEvent, KeyCode, KeyInput, TickClock, ALT, CONTROL, SHIFT};

fn press(code: KeyCode, modifiers: u8) -> KeyInput {
    KeyInput { code, modifiers }
}

#[test]
fn control_c_and_control_d_request_termination() {
    assert_eq!(map_event(press(KeyCode::Char('c'), CONTROL)), AppEvent::Signal);
    assert_eq!(map_event(press(KeyCode::Char('d'), CONTROL)), AppEvent::Signal);
}

#[test]
fn other_chords_stay_input() {
    let plain_c = press(KeyCode::Char('c'), 0);
    assert_eq!(map_event(plain_c), AppEvent::Input(plain_c));
    let with_shift = press(KeyCode::Char('c'), CONTROL | SHIFT);
    assert_eq!(map_event(with_shift), AppEvent::Input(with_shift));
    let alt_d = press(KeyCode::Char('d'), ALT);
    assert_eq!(map_event(alt_d), AppEvent::Input(alt_d));
    let control_x = press(KeyCode::Char('x'), CONTROL);
    assert_eq!(map_event(control_x), AppEvent::Input(control_x));
    let control_up = press(KeyCode::Up, CONTROL);
    assert_eq!(map_event(control_up), AppEvent::Input(control_up));
}

#[test]
fn first_tick_waits_one_period() {
    let mut clock = TickClock::new(150);
    assert_eq!(clock.next_tick_in(), 150);
}

#[test]
fn input_shortens_the_wait_for_the_next_tick() {
    let mut clock = TickClock::new(150);
    clock.record(false, 40);
    assert_eq!(clock.next_tick_in(), 110);
    clock.record(false, 110);
    assert_eq!(clock.next_tick_in(), 0);
}

#[test]
fn slow_step_yields_no_burst_of_ticks() {
    // a 150 ms period and one step of 400 ms: at most 400 / 150 = 2 ticks
    // may catch up before the schedule is back in line
    let mut clock = TickClock::new(150);
    clock.record(false, 400);
    let wait = clock.next_tick_in();
    assert_eq!(wait, 50);
    assert_eq!(clock.since_last_tick, 100);
    let mut catch_up_ticks = 0;
    let mut wait = wait;
    while wait < 150 {
        catch_up_ticks += 1;
        clock.record(true, wait);
        wait = clock.next_tick_in();
    }
    assert_eq!(catch_up_ticks, 1);
    assert!(catch_up_ticks <= 400 / 150);
    assert_eq!(wait, 150);
}

#[test]
fn whole_periods_are_dropped() {
    let mut clock = TickClock::new(150);
    clock.record(false, 300);
    assert_eq!(clock.next_tick_in(), 0);
    assert_eq!(clock.since_last_tick, 150);
    let mut clock = TickClock::new(150);
    clock.record(false, 151);
    assert_eq!(clock.next_tick_in(), 149);
    assert_eq!(clock.since_last_tick, 1);
}

#[test]
fn tick_restarts_the_count() {
    let mut clock = TickClock::new(100);
    clock.record(false, 70);
    clock.record(true, 30);
    assert_eq!(clock.since_last_tick, 0);
    assert_eq!(clock.next_tick_in(), 100);
}

#[test]
fn elapsed_time_saturates() {
    let mut clock = TickClock::new(100);
    clock.record(false, u64::MAX - 5);
    clock.record(false, 10);
    assert_eq!(clock.since_last_tick, u64::MAX);
    let wait = clock.next_tick_in();
    assert!(wait <= 100);
    assert_eq!(clock.since_last_tick, (u64::MAX - 1) % 100 + 1);
}
