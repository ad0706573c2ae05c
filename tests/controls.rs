use balls::{Controls, ForceMode, KeyInput, BASE_FORCE, BASE_TIMESCALE, FORCE_STEP};

fn keys(slow_down: bool, speed_up: bool, raise_force: bool, lower_force: bool) -> KeyInput {
    KeyInput {
        slow_down,
        speed_up,
        raise_force,
        lower_force,
    }
}

#[test]
fn startup_knobs() {
    let c = Controls::new();
    assert_eq!(c.timescale, 100);
    assert_eq!(c.force, 1000);
    assert_eq!(BASE_TIMESCALE, 100);
    assert_eq!(BASE_FORCE, 1000);
    assert_eq!(FORCE_STEP, 50);
    assert_eq!(c.mode(), ForceMode::Pull);
}

#[test]
fn no_keys_change_nothing() {
    let mut c = Controls::new();
    c.apply(keys(false, false, false, false));
    assert_eq!(c, Controls::new());
}

#[test]
fn timescale_moves_by_one() {
    let mut c = Controls::new();
    c.apply(keys(false, true, false, false));
    assert_eq!(c.timescale, 101);
    c.apply(keys(true, false, false, false));
    c.apply(keys(true, false, false, false));
    assert_eq!(c.timescale, 99);
}

#[test]
fn timescale_stops_at_zero() {
    let mut c = Controls { timescale: 0, force: 0 };
    c.apply(keys(true, false, false, false));
    assert_eq!(c.timescale, 0);
}

#[test]
fn lowering_at_zero_then_raising_gives_one() {
    let mut c = Controls { timescale: 0, force: 0 };
    c.apply(keys(true, true, false, false));
    assert_eq!(c.timescale, 1);
}

#[test]
fn force_moves_by_fifty() {
    let mut c = Controls::new();
    c.apply(keys(false, false, true, false));
    assert_eq!(c.force, 1050);
    c.apply(keys(false, false, false, true));
    c.apply(keys(false, false, false, true));
    assert_eq!(c.force, 950);
    c.apply(keys(false, false, true, true));
    assert_eq!(c.force, 950);
}

#[test]
fn force_is_not_clamped_at_zero() {
    let mut c = Controls { timescale: 1, force: 25 };
    c.apply(keys(false, false, false, true));
    assert_eq!(c.force, -25);
    assert_eq!(c.mode(), ForceMode::Push);
}

#[test]
fn force_holds_at_the_ends() {
    let mut c = Controls { timescale: 1, force: i64::MAX - 10 };
    c.apply(keys(false, false, true, false));
    assert_eq!(c.force, i64::MAX);
    let mut d = Controls { timescale: 1, force: i64::MIN + 10 };
    d.apply(keys(false, false, false, true));
    assert_eq!(d.force, i64::MIN);
}

#[test]
fn zero_force_is_off() {
    let c = Controls { timescale: 100, force: 0 };
    assert_eq!(c.mode(), ForceMode::Off);
}

#[test]
fn twenty_frames_of_lowering_flip_to_push() {
    let mut c = Controls::new();
    for _ in 0..20 {
        c.apply(keys(false, false, false, true));
    }
    assert_eq!(c.force, 0);
    assert_eq!(c.mode(), ForceMode::Off);
    c.apply(keys(false, false, false, true));
    assert_eq!(c.force, -50);
    assert_eq!(c.mode(), ForceMode::Push);
}
