use blinky::controller::{loop_step, Device, LoopAction, Phase};
use blinky::registry::PeripheralRegistry;
use blinky::speed::{next_delay, LedSpeed, FAST, MEDIUM, SLOW};

fn is_speed(d: u32) -> bool {
    d == SLOW || d == MEDIUM || d == FAST
}

#[test]
fn transition_table_cycles_through_speeds() {
    assert_eq!(next_delay(SLOW), MEDIUM);
    assert_eq!(next_delay(MEDIUM), FAST);
    assert_eq!(next_delay(FAST), SLOW);
}

#[test]
fn three_transitions_return_to_start() {
    for d in [SLOW, MEDIUM, FAST] {
        assert_eq!(next_delay(next_delay(next_delay(d))), d);
    }
}

#[test]
fn speed_magnitudes() {
    assert_eq!(SLOW, 2000000);
    assert_eq!(MEDIUM, 1000000);
    assert_eq!(FAST, 500000);
    assert!(SLOW > MEDIUM && MEDIUM > FAST);
}

#[test]
fn delay_stays_a_speed_over_many_edges() {
    let mut d = SLOW;
    for _ in 0..1000 {
        d = next_delay(d);
        assert!(is_speed(d));
    }
}

#[test]
fn unknown_delay_is_left_unchanged() {
    for d in [0u32, 1, 12345, 1500000, u32::MAX] {
        assert_eq!(next_delay(d), d);
    }
}

#[test]
fn led_speed_cycles_and_successors() {
    assert_eq!(LedSpeed::Slow.cycles(), SLOW);
    assert_eq!(LedSpeed::Medium.cycles(), MEDIUM);
    assert_eq!(LedSpeed::Fast.cycles(), FAST);
    assert_eq!(LedSpeed::Slow.next(), LedSpeed::Medium);
    assert_eq!(LedSpeed::Medium.next(), LedSpeed::Fast);
    assert_eq!(LedSpeed::Fast.next(), LedSpeed::Slow);
}

#[test]
fn led_speed_from_delay() {
    assert_eq!(LedSpeed::from_delay(SLOW), Some(LedSpeed::Slow));
    assert_eq!(LedSpeed::from_delay(MEDIUM), Some(LedSpeed::Medium));
    assert_eq!(LedSpeed::from_delay(FAST), Some(LedSpeed::Fast));
    assert_eq!(LedSpeed::from_delay(0), None);
    assert_eq!(LedSpeed::from_delay(750000), None);
}

#[test]
fn device_starts_slow_and_idle() {
    let d = Device::new();
    assert_eq!(d.delay(), SLOW);
    assert!(!d.pending());
    assert!(!d.led_high());
    assert_eq!(d.phase(), Phase::LedOn);
}

#[test]
fn scenario_three_edges() {
    let mut d = Device::new();
    assert_eq!(d.delay(), SLOW);
    d.latch_edge();
    d.on_button_edge();
    assert_eq!(d.delay(), MEDIUM);
    d.latch_edge();
    d.on_button_edge();
    assert_eq!(d.delay(), FAST);
    d.latch_edge();
    d.on_button_edge();
    assert_eq!(d.delay(), SLOW);
}

#[test]
fn handler_acknowledges_the_line() {
    let mut d = Device::new();
    d.latch_edge();
    assert!(d.pending());
    d.on_button_edge();
    assert!(!d.pending());
}

#[test]
fn two_edges_in_succession_give_two_transitions() {
    let mut d = Device::new();
    d.latch_edge();
    d.on_button_edge();
    d.latch_edge();
    d.on_button_edge();
    assert_eq!(d.delay(), FAST);
    assert!(!d.pending());
}

#[test]
fn reads_between_edges_see_only_speeds() {
    let mut d = Device::new();
    let mut edges: u32 = 0;
    for i in 0..300u32 {
        if i % 3 != 1 {
            d.latch_edge();
            d.on_button_edge();
            edges += 1;
        }
        let a = d.run_step();
        if let LoopAction::Wait(w) = a {
            assert!(is_speed(w));
        }
        let seen = d.delay();
        assert!(is_speed(seen));
        let expected = [SLOW, MEDIUM, FAST][(edges % 3) as usize];
        assert_eq!(seen, expected);
    }
}

#[test]
fn scenario_no_edges_holds_follow_slow() {
    let mut d = Device::new();
    for _ in 0..5 {
        assert_eq!(d.run_step(), LoopAction::DriveLed(true));
        assert!(d.led_high());
        assert_eq!(d.run_step(), LoopAction::Wait(SLOW));
        assert_eq!(d.run_step(), LoopAction::DriveLed(false));
        assert!(!d.led_high());
        assert_eq!(d.run_step(), LoopAction::Wait(SLOW));
    }
    assert_eq!(d.delay(), SLOW);
}

#[test]
fn edge_between_halves_changes_the_second_hold() {
    let mut d = Device::new();
    assert_eq!(d.run_step(), LoopAction::DriveLed(true));
    assert_eq!(d.run_step(), LoopAction::Wait(SLOW));
    d.latch_edge();
    d.on_button_edge();
    assert_eq!(d.run_step(), LoopAction::DriveLed(false));
    assert_eq!(d.run_step(), LoopAction::Wait(MEDIUM));
    assert_eq!(d.phase(), Phase::LedOn);
}

#[test]
fn loop_step_each_phase() {
    assert_eq!(loop_step(Phase::LedOn, FAST), (Phase::HoldOn, LoopAction::DriveLed(true)));
    assert_eq!(loop_step(Phase::HoldOn, FAST), (Phase::LedOff, LoopAction::Wait(FAST)));
    assert_eq!(loop_step(Phase::LedOff, FAST), (Phase::HoldOff, LoopAction::DriveLed(false)));
    assert_eq!(loop_step(Phase::HoldOff, MEDIUM), (Phase::LedOn, LoopAction::Wait(MEDIUM)));
}

#[test]
fn registry_is_empty_before_hand_off() {
    let r: PeripheralRegistry<u8, u16, u32> = PeripheralRegistry::new();
    assert!(!r.is_ready());
}

#[test]
fn registry_hands_out_each_handle() {
    let mut r: PeripheralRegistry<u8, u16, u32> = PeripheralRegistry::new();
    r.initialize(5, 13, 40);
    assert!(r.is_ready());
    assert_eq!(*r.output(), 5);
    assert_eq!(*r.input(), 13);
    assert_eq!(*r.interrupts(), 40);
}
