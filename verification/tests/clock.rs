use lenia::clock::{SimulationClock, DEFAULT_PERIOD_NANOS};

const PERIOD: u64 = 70_000_000;
const FRAME: u64 = 16_000_000;

#[test]
fn new_clock_is_empty_and_not_completed() {
    let clock = SimulationClock::new(PERIOD);
    assert_eq!(clock.period_nanos(), PERIOD);
    assert_eq!(clock.elapsed_nanos(), 0);
    assert!(!clock.just_completed());
}

#[test]
fn default_clock_has_the_default_period() {
    let clock = SimulationClock::default();
    assert_eq!(DEFAULT_PERIOD_NANOS, 70_000_000);
    assert_eq!(clock.period_nanos(), 70_000_000);
    assert_eq!(clock.elapsed_nanos(), 0);
    assert!(!clock.just_completed());
}

#[test]
fn tick_below_the_period_accumulates() {
    let mut clock = SimulationClock::new(PERIOD);
    clock.tick(FRAME);
    assert_eq!(clock.elapsed_nanos(), 16_000_000);
    assert!(!clock.just_completed());
    clock.tick(FRAME);
    assert_eq!(clock.elapsed_nanos(), 32_000_000);
    assert!(!clock.just_completed());
}

#[test]
fn tick_across_the_period_keeps_the_overshoot() {
    let mut clock = SimulationClock::new(PERIOD);
    for _ in 0..4 {
        clock.tick(FRAME);
    }
    assert_eq!(clock.elapsed_nanos(), 64_000_000);
    assert!(!clock.just_completed());
    clock.tick(FRAME);
    assert!(clock.just_completed());
    assert_eq!(clock.elapsed_nanos(), 10_000_000);
}

#[test]
fn tick_that_lands_on_the_period_completes_with_nothing_left() {
    let mut clock = SimulationClock::new(PERIOD);
    clock.tick(PERIOD);
    assert!(clock.just_completed());
    assert_eq!(clock.elapsed_nanos(), 0);
}

#[test]
fn completion_is_reported_for_one_tick_only() {
    let mut clock = SimulationClock::new(PERIOD);
    clock.tick(69_000_000);
    assert!(!clock.just_completed());
    clock.tick(2_000_000);
    assert!(clock.just_completed());
    assert_eq!(clock.elapsed_nanos(), 1_000_000);
    clock.tick(2_000_000);
    assert!(!clock.just_completed());
    assert_eq!(clock.elapsed_nanos(), 3_000_000);
}

#[test]
fn tick_of_zero_changes_nothing_on_the_clock() {
    let mut clock = SimulationClock::new(PERIOD);
    clock.tick(5);
    clock.tick(0);
    assert_eq!(clock.elapsed_nanos(), 5);
    assert!(!clock.just_completed());
}

#[test]
fn long_frame_completes_once_and_keeps_the_remainder() {
    let mut clock = SimulationClock::new(PERIOD);
    clock.tick(200_000_000);
    assert!(clock.just_completed());
    assert_eq!(clock.elapsed_nanos(), 60_000_000);
    clock.tick(200_000_000);
    assert!(clock.just_completed());
    assert_eq!(clock.elapsed_nanos(), 50_000_000);
}

#[test]
fn clock_without_a_period_completes_on_every_tick() {
    let mut clock = SimulationClock::new(0);
    clock.tick(0);
    assert!(clock.just_completed());
    assert_eq!(clock.elapsed_nanos(), 0);
    clock.tick(123);
    assert!(clock.just_completed());
    assert_eq!(clock.elapsed_nanos(), 0);
}

#[test]
fn largest_values_do_not_overflow() {
    let mut clock = SimulationClock::new(u64::MAX);
    clock.tick(u64::MAX - 1);
    assert!(!clock.just_completed());
    assert_eq!(clock.elapsed_nanos(), u64::MAX - 1);
    clock.tick(u64::MAX);
    assert!(clock.just_completed());
    assert_eq!(clock.elapsed_nanos(), u64::MAX - 1);
    clock.tick(2);
    assert!(clock.just_completed());
    assert_eq!(clock.elapsed_nanos(), 1);
}

#[test]
fn sixty_frames_per_second_complete_on_frames_5_9_14_18() {
    let mut clock = SimulationClock::new(PERIOD);
    let mut completed_on = Vec::new();
    for frame in 1..=20u32 {
        clock.tick(FRAME);
        if clock.just_completed() {
            completed_on.push(frame);
        }
    }
    assert_eq!(completed_on, vec![5, 9, 14, 18]);
}

#[test]
fn completions_are_the_whole_periods_in_the_total_time() {
    let mut clock = SimulationClock::new(PERIOD);
    let mut completions = 0u64;
    for _ in 0..100 {
        clock.tick(FRAME);
        if clock.just_completed() {
            completions += 1;
        }
    }
    assert_eq!(completions, (100 * FRAME) / PERIOD);
    assert_eq!(completions, 22);
    assert_eq!(clock.elapsed_nanos(), (100 * FRAME) % PERIOD);
    assert_eq!(clock.elapsed_nanos(), 60_000_000);
}

#[test]
fn time_already_on_the_clock_can_bring_one_completion_forward() {
    let mut clock = SimulationClock::new(PERIOD);
    clock.tick(60_000_000);
    let mut completions = 0u64;
    for _ in 0..4 {
        clock.tick(FRAME);
        if clock.just_completed() {
            completions += 1;
        }
    }
    assert_eq!((4 * FRAME) / PERIOD, 0);
    assert_eq!(completions, (60_000_000 + 4 * FRAME) / PERIOD);
    assert_eq!(completions, 1);
}

#[test]
fn frames_longer_than_the_period_complete_every_tick() {
    let mut clock = SimulationClock::new(PERIOD);
    let mut completions = 0u64;
    for _ in 0..10 {
        clock.tick(200_000_000);
        if clock.just_completed() {
            completions += 1;
        }
    }
    assert_eq!(completions, 10);
    assert_eq!((10 * 200_000_000u64) / PERIOD, 28);
}
