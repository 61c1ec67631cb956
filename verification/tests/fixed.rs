use gridlock::fixed::{isqrt, wave, wave_ahead, FULL_TURN, HALF_TURN, QUARTER_TURN, UNIT};

#[test]
fn square_roots_round_down() {
    assert_eq!(isqrt(0), 0);
    assert_eq!(isqrt(1), 1);
    assert_eq!(isqrt(2), 1);
    assert_eq!(isqrt(3), 1);
    assert_eq!(isqrt(4), 2);
    assert_eq!(isqrt(15), 3);
    assert_eq!(isqrt(16), 4);
    assert_eq!(isqrt(17), 4);
    assert_eq!(isqrt(1_000_000_000_000), 1_000_000);
    assert_eq!(isqrt(999_999_999_999), 999_999);
    assert_eq!(isqrt(250_000_000_000), 500_000);
    assert_eq!(isqrt(u64::MAX as u128), 4_294_967_295);
    assert_eq!(isqrt(u128::MAX), u64::MAX);
}

#[test]
fn square_root_brackets_its_argument() {
    let mut n: u128 = 1;
    for _ in 0..120 {
        let r = isqrt(n) as u128;
        assert!(r * r <= n);
        assert!((r + 1) * (r + 1) > n);
        n = n * 2 + 1;
    }
}

#[test]
fn wave_at_the_quarters() {
    assert_eq!(wave(0), 0);
    assert_eq!(wave(QUARTER_TURN), 999_999);
    assert_eq!(wave(HALF_TURN), 0);
    assert_eq!(wave(HALF_TURN + QUARTER_TURN), -999_999);
    assert_eq!(wave(FULL_TURN), 0);
    assert_eq!(wave_ahead(0), 999_999);
    assert_eq!(wave_ahead(QUARTER_TURN), 1);
    assert_eq!(wave_ahead(HALF_TURN), -999_999);
}

#[test]
fn wave_at_chosen_phases() {
    assert_eq!(wave(500_000), 479_582);
    assert_eq!(wave(785_398), 705_882);
    assert_eq!(wave(1_000_000), 840_218);
    assert_eq!(wave(4_000_000), -755_471);
    assert_eq!(wave_ahead(1_000_000), 540_002);
    assert_eq!(wave_ahead(4_000_000), -652_635);
}

#[test]
fn wave_has_the_full_turn_as_period() {
    let mut phase: u64 = 0;
    while phase < FULL_TURN {
        assert_eq!(wave(phase), wave(phase + FULL_TURN));
        assert_eq!(wave(phase), wave(phase + 1000 * FULL_TURN));
        assert_eq!(wave_ahead(phase), wave(phase + QUARTER_TURN));
        phase += 9_973;
    }
    assert_eq!(wave(u64::MAX), wave(u64::MAX % FULL_TURN));
}

#[test]
fn wave_stays_within_one_unit_and_near_the_sine() {
    let mut phase: u64 = 0;
    while phase < 2 * FULL_TURN {
        let w = wave(phase);
        assert!(-(UNIT as i64) <= w && w <= UNIT as i64);
        let sine = (phase as f64 / 1e6).sin() * 1e6;
        assert!((w as f64 - sine).abs() < 2_000.0);
        phase += 997;
    }
}
