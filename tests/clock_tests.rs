use tomato_notify::clock::{
    break_after_position, dura_sub, min2sec, remaining_seconds, Config, CycleInfo, Phase, MAX_UNITS,
};

fn busy_since(start: u64) -> CycleInfo {
    CycleInfo {
        current_phase: Phase::Busy,
        next_phase: Phase::ShortBreak,
        needs_acknowledgment: false,
        phase_started_at: start,
    }
}

#[test]
fn min2sec_scales_units() {
    assert_eq!(min2sec(0), 0);
    assert_eq!(min2sec(1), 20);
    assert_eq!(min2sec(3), 60);
}

#[test]
fn dura_sub_rounds_toward_zero() {
    assert_eq!(dura_sub(5_000, 5_000), 0);
    assert_eq!(dura_sub(21_999, 0), 21);
    assert_eq!(dura_sub(20_000, 21_500), -1);
    assert_eq!(dura_sub(20_000, 20_999), 0);
    assert_eq!(dura_sub(0, u64::MAX), -18_446_744_073_709_551);
}

#[test]
fn breaks_follow_positions() {
    assert_eq!(break_after_position(0), Phase::ShortBreak);
    assert_eq!(break_after_position(1), Phase::ShortBreak);
    assert_eq!(break_after_position(2), Phase::ShortBreak);
    assert_eq!(break_after_position(3), Phase::LongBreak);
}

#[test]
fn config_bounds() {
    assert!(Config::new(MAX_UNITS, 1, 1, 1).is_some());
    assert!(Config::new(MAX_UNITS + 1, 1, 1, 1).is_none());
    assert!(Config::new(1, 1, 1, MAX_UNITS + 1).is_none());
    let c = Config::new(25, 5, 15, 1).unwrap();
    assert_eq!(c.phase_millis(Phase::Busy), 500_000);
    assert_eq!(c.phase_millis(Phase::ShortBreak), 100_000);
    assert_eq!(c.phase_millis(Phase::LongBreak), 300_000);
    assert_eq!(c.remind_millis(), 20_000);
    assert_eq!(Config::default(), Config::new(1, 1, 1, 1).unwrap());
}

#[test]
fn remaining_equals_duration_at_start() {
    let c = Config::default();
    assert_eq!(remaining_seconds(&busy_since(7_000), &c, 7_000), 20);
    let long = CycleInfo {
        current_phase: Phase::LongBreak,
        next_phase: Phase::Busy,
        needs_acknowledgment: false,
        phase_started_at: 0,
    };
    let c = Config::new(1, 2, 3, 1).unwrap();
    assert_eq!(remaining_seconds(&long, &c, 0), 60);
}

#[test]
fn remaining_goes_negative_when_overdue() {
    let c = Config::default();
    let info = busy_since(1_000);
    assert_eq!(remaining_seconds(&info, &c, 11_000), 10);
    assert_eq!(remaining_seconds(&info, &c, 21_000), 0);
    assert_eq!(remaining_seconds(&info, &c, 22_000), -1);
    assert_eq!(remaining_seconds(&info, &c, 26_500), -5);
    assert_eq!(remaining_seconds(&info, &c, 500), 20);
}

#[test]
fn remaining_never_grows() {
    let c = Config::default();
    let info = busy_since(0);
    let mut last = remaining_seconds(&info, &c, 0);
    let mut now = 0;
    while now < 60_000 {
        now += 750;
        let r = remaining_seconds(&info, &c, now);
        assert!(r <= last);
        last = r;
    }
    assert!(last < 0);
}
