use blinky::led::Led;
use blinky::sched::TaskId;
use blinky::sched::Threshold;
use blinky::system::Event;
use blinky::system::FAST_INTERVAL;
use blinky::system::NORMAL_INTERVAL;
use blinky::system::System;

/// Delivers `n` tick interrupts and returns how many toggled the LED.
fn run_ticks(sys: &mut System, n: u32) -> u32 {
    let mut toggles = 0;
    for _ in 0..n {
        let act = sys.step(Event::Tick);
        if act.pin_level.is_some() {
            toggles += 1;
        }
    }
    toggles
}

#[test]
fn led_inverts_and_reports_pin_level() {
    let mut led = Led::new(false);
    assert!(!led.is_on());
    assert_eq!(led.blink(), true);
    assert!(led.is_on());
    assert_eq!(led.blink(), false);
    assert!(!led.is_on());
}

#[test]
fn boot_state() {
    let sys = System::new();
    assert!(!sys.led_is_on());
    assert_eq!(sys.count(), 0);
    assert_eq!(sys.interval(), NORMAL_INTERVAL);
    assert!(!sys.is_waiting());
}

#[test]
fn hundred_ticks_toggle_exactly_once_at_the_hundredth() {
    let mut sys = System::new();
    for i in 1..=100u32 {
        let act = sys.step(Event::Tick);
        if i < 100 {
            assert!(act.pin_level.is_none());
            assert!(!sys.led_is_on());
            assert_eq!(sys.count(), i);
        } else {
            assert_eq!(act.pin_level, Some(true));
            assert!(sys.led_is_on());
            assert_eq!(sys.count(), 0);
        }
    }
}

#[test]
fn press_mid_period_waits_for_the_toggle_then_speeds_up() {
    let mut sys = System::new();
    assert_eq!(run_ticks(&mut sys, 100), 1);
    assert!(sys.led_is_on());

    assert_eq!(run_ticks(&mut sys, 50), 0);
    let act = sys.step(Event::Edge { pin_low: true });
    assert!(act.re_pend);
    assert!(act.clear_latch);
    assert!(sys.is_waiting());
    assert_eq!(sys.interval(), NORMAL_INTERVAL);

    assert_eq!(run_ticks(&mut sys, 49), 0);
    assert!(sys.is_waiting());
    assert_eq!(sys.interval(), NORMAL_INTERVAL);

    assert_eq!(run_ticks(&mut sys, 1), 1);
    assert!(!sys.led_is_on());
    assert!(!sys.is_waiting());
    assert_eq!(sys.interval(), FAST_INTERVAL);
    assert_eq!(sys.count(), 0);
}

#[test]
fn after_the_press_the_fast_period_holds() {
    let mut sys = System::new();
    run_ticks(&mut sys, 150);
    sys.step(Event::Edge { pin_low: true });
    run_ticks(&mut sys, 50);
    assert_eq!(sys.interval(), FAST_INTERVAL);
    assert!(!sys.led_is_on());

    for i in 1..=20u32 {
        let act = sys.step(Event::Tick);
        if i < 20 {
            assert!(act.pin_level.is_none());
        } else {
            assert_eq!(act.pin_level, Some(true));
        }
    }
    assert!(sys.led_is_on());
}

#[test]
fn two_presses_restore_the_interval() {
    let mut sys = System::new();
    run_ticks(&mut sys, 100);
    let before = sys.interval();

    sys.step(Event::Edge { pin_low: true });
    run_ticks(&mut sys, 200);
    assert_eq!(sys.interval(), FAST_INTERVAL);

    while !sys.led_is_on() {
        sys.step(Event::Tick);
    }
    sys.step(Event::Edge { pin_low: true });
    run_ticks(&mut sys, 200);
    assert_eq!(sys.interval(), before);
}

#[test]
fn press_with_led_off_is_served_at_once() {
    let mut sys = System::new();
    run_ticks(&mut sys, 50);
    assert!(!sys.led_is_on());
    let act = sys.step(Event::Edge { pin_low: true });
    assert!(act.re_pend);
    assert!(act.clear_latch);
    assert!(!sys.is_waiting());
    assert_eq!(sys.interval(), FAST_INTERVAL);
    assert_eq!(sys.count(), 50);
}

#[test]
fn shrunk_interval_toggles_on_the_very_next_tick() {
    let mut sys = System::new();
    run_ticks(&mut sys, 50);
    sys.step(Event::Edge { pin_low: true });
    assert_eq!(sys.interval(), FAST_INTERVAL);
    assert_eq!(sys.count(), 50);

    let act = sys.step(Event::Tick);
    assert_eq!(act.pin_level, Some(true));
    assert!(sys.led_is_on());
    assert_eq!(sys.count(), 0);
}

#[test]
fn released_button_edge_is_noise() {
    let mut sys = System::new();
    run_ticks(&mut sys, 30);
    let act = sys.step(Event::Edge { pin_low: false });
    assert!(act.re_pend);
    assert!(!act.clear_latch);
    assert!(!sys.is_waiting());
    assert_eq!(sys.interval(), NORMAL_INTERVAL);
    assert_eq!(sys.count(), 30);
}

#[test]
fn handler_entry_and_polls_leave_no_claim_open() {
    let mut sys = System::new();
    run_ticks(&mut sys, 100);
    let mut t = Threshold::new(TaskId::Debounce);
    sys.exti13(&mut t, true);
    assert_eq!(t.claims.len(), 0);
    assert!(sys.is_waiting());

    let mut sys2 = sys;
    for _ in 0..99 {
        sys2.sys_tick();
        let done = sys2.debounce_poll(&mut t);
        assert!(!done);
        assert_eq!(t.claims.len(), 0);
    }
    sys2.sys_tick();
    let done = sys2.debounce_poll(&mut t);
    assert!(done);
    assert_eq!(t.claims.len(), 0);
    assert_eq!(sys2.interval(), FAST_INTERVAL);
}

#[test]
fn sys_tick_reports_each_new_pin_level() {
    let mut sys = System::new();
    let mut levels = Vec::new();
    for _ in 0..400u32 {
        if let Some(level) = sys.sys_tick() {
            levels.push(level);
        }
    }
    assert_eq!(levels, vec![true, false, true, false]);
}
