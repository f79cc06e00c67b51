use tween::{
    DeltaTweener, Extrapolate, FixedTweener, Linear, Looper, Oscillator, Tween, TweenTime,
    TweenValue, Tweener,
};

#[test]
fn scale_by_whole_and_zero_fractions_is_exact() {
    // Scaling by a whole fraction of the duration is the identity, and
    // by a zero fraction it is exactly zero, for every value.
    for x in [-9001i64, -5, 0, 7, 9001] {
        assert_eq!(TweenValue::scale(x, 10, 10), x);
        assert_eq!(TweenValue::scale(x, 0, 10), 0);
    }
    assert_eq!(<i64 as TweenValue>::zero(), 0);
}

#[test]
fn time_capabilities() {
    assert_eq!(<i64 as TweenTime>::zero(), 0);
    assert!(TweenTime::is_complete(10i64, 10));
    assert!(TweenTime::is_complete(11i64, 10));
    assert!(!TweenTime::is_complete(9i64, 10));
    assert_eq!(TweenTime::wrap(13i64, 4), 1);
    assert_eq!(TweenTime::wrap(8i64, 4), 0);
    assert_eq!(TweenTime::scale(10i64, 1, 4), 2);
}

#[test]
fn linear_over_frames() {
    let mut tweener = Tweener::new(Linear::new(0, 100, 10));
    for val in 1..=10i64 {
        let value = tweener.move_to(val);
        assert_eq!(value, val * 10);
    }
}

#[test]
fn linear_over_frames_rev() {
    let mut tweener = Tweener::new(Linear::new(100, 0, 10));
    for val in 1..=10i64 {
        let value = tweener.move_to(val);
        assert_eq!(value, 100 - val * 10);
    }
}

#[test]
fn boundary_exactness() {
    let mut up = Linear::new(3, 11, 5);
    assert_eq!(up.run(0), 3);
    assert_eq!(up.run(5), 11);

    let mut down = Linear::new(10, -7, 9);
    assert_eq!(down.run(0), 10);
    assert_eq!(down.run(9), -7);

    let mut flat = Linear::new(42, 42, 7);
    assert_eq!(flat.run(0), 42);
    assert_eq!(flat.run(3), 42);
    assert_eq!(flat.run(7), 42);
}

#[test]
fn truncation_toward_zero_is_exact() {
    // 10 -> 0 over 3 ticks: the scaled delta rounds toward zero, so the
    // values are 10 - 10/3 = 7 and 10 - 20/3 = 4, exactly.
    let mut tweener = Tweener::new(Linear::new(10, 0, 3));
    assert_eq!(tweener.move_to(1), 7);
    assert_eq!(tweener.move_to(2), 4);
    assert_eq!(tweener.move_to(3), 0);
}

#[test]
fn idempotent_completion() {
    let mut tweener = Tweener::new(Linear::new(0, 100, 10));
    assert_eq!(tweener.move_to(10), 100);
    assert!(tweener.is_finished());
    assert_eq!(tweener.move_to(10), 100);
    assert!(tweener.is_finished());
    // Advancing past the duration clamps to it.
    assert_eq!(tweener.move_to(15), 100);
    assert_eq!(tweener.current_time, 10);
    assert!(tweener.is_finished());
}

#[test]
fn not_finished_before_duration() {
    let mut tweener = Tweener::new(Linear::new(0, 100, 10));
    assert_eq!(tweener.move_to(9), 90);
    assert!(!tweener.is_finished());
}

#[test]
fn loop_wraparound() {
    let mut tweener = DeltaTweener::new(Looper::new(Linear::new(0, 4, 4)));
    let mut values = Vec::new();
    for _ in 0..5 {
        values.push(tweener.move_by(1));
        assert!(!tweener.is_finished());
    }
    assert_eq!(values, vec![1, 2, 3, 0, 1]);
    // The fifth tick has returned to the value after one tick of the
    // first cycle.
    assert_eq!(values[4], values[0]);
}

#[test]
fn looper_restarts_at_initial_value() {
    let mut looper = Looper::new(Linear::new(5, 9, 4));
    assert_eq!(looper.run(0), 5);
    assert_eq!(looper.run(4), 5);
    assert_eq!(looper.run(8), 5);
    assert_eq!(looper.run(9), 6);
    assert!(!looper.is_finite());
}

#[test]
fn oscillator_ping_pongs() {
    let mut tweener = DeltaTweener::new(Oscillator::new(Linear::new(0, 4, 4)));
    let mut values = Vec::new();
    for _ in 0..8 {
        values.push(tweener.move_by(1));
        assert!(!tweener.is_finished());
    }
    assert_eq!(values, vec![1, 2, 3, 4, 3, 2, 1, 0]);
}

#[test]
fn oscillator_hits_final_value_each_forward_cycle() {
    let mut oscillator = Oscillator::new(Linear::new(0, 10, 5));
    assert_eq!(oscillator.run(0), 0);
    assert_eq!(oscillator.run(5), 10);
    assert_eq!(oscillator.run(10), 0);
    assert_eq!(oscillator.run(15), 10);
}

#[test]
fn delta_driver_equivalence() {
    // Deltas summing to 10 land exactly where one absolute move to 10
    // lands.
    let mut by_deltas = DeltaTweener::new(Linear::new(0, 100, 10));
    let mut last = 0;
    for delta in [3, 4, 1, 2] {
        last = by_deltas.move_by(delta);
    }
    let mut absolute = Tweener::new(Linear::new(0, 100, 10));
    assert_eq!(last, absolute.move_to(10));
    assert!(by_deltas.is_finished());

    // The same holds past the end: both clamp.
    let mut overshoot = DeltaTweener::new(Linear::new(0, 100, 10));
    let mut last = 0;
    for delta in [7, 8] {
        last = overshoot.move_by(delta);
    }
    let mut absolute = Tweener::new(Linear::new(0, 100, 10));
    assert_eq!(last, absolute.move_to(15));
}

#[test]
fn delta_driver_takes_negative_deltas() {
    let mut tweener = DeltaTweener::new(Linear::new(0, 100, 10));
    assert_eq!(tweener.move_by(8), 80);
    assert_eq!(tweener.move_by(-3), 50);
    assert_eq!(tweener.move_by(-8), 0);
    assert_eq!(tweener.current_time, -3);
}

#[test]
fn fixed_tweener_steps_by_a_constant() {
    let mut tweener = FixedTweener::new(Linear::new(0, 100, 10), 2);
    let mut values = Vec::new();
    for _ in 0..5 {
        values.push(tweener.move_next());
    }
    assert_eq!(values, vec![20, 40, 60, 80, 100]);
    assert!(tweener.is_finished());
}

#[test]
fn extrapolate_passes_beyond_bounds() {
    let mut tweener = Tweener::new(Extrapolate::new(Linear::new(0, 10, 5)));
    assert_eq!(tweener.move_to(10), 20);
    assert_eq!(tweener.current_time, 10);
    assert!(!tweener.is_finished());

    let mut down = Tweener::new(Extrapolate::new(Linear::new(0, -10, 5)));
    assert_eq!(down.move_to(10), -20);
}

#[test]
fn into_loop_and_into_oscillator() {
    let mut looped = Linear::new(0, 4, 4).into_loop();
    assert_eq!(looped.run(6), 2);
    let mut oscillated = Linear::new(0, 4, 4).into_oscillator();
    assert_eq!(oscillated.run(6), 2);
    assert_eq!(oscillated.run(5), 3);
}

#[test]
fn curve_accessors() {
    let linear = Linear::new(2, 8, 6);
    assert_eq!(linear.duration(), 6);
    assert_eq!(linear.initial_value(), 2);
    assert_eq!(linear.final_value(), 8);
    assert!(linear.is_finite());

    let looper = Looper::new(linear);
    assert_eq!(looper.duration(), 6);
    assert_eq!(looper.initial_value(), 2);
    assert_eq!(looper.final_value(), 8);
    assert!(!looper.is_finite());
}

#[test]
fn formulations_agree() {
    // The delta/percent formulation returns the increment that the
    // full-state formulation adds to the initial value.
    let mut curve = Linear::new(10, 0, 3);
    for t in 0..=3i64 {
        assert_eq!(curve.run(t), 10 + Linear::tween(-10, t, 3));
    }
    assert_eq!(Linear::tween(100, 3, 10), 30);
    assert_eq!(Linear::tween(-10, 1, 3), -3);
    assert_eq!(Linear::tween(7, 0, 5), 0);
    assert_eq!(Linear::tween(7, 5, 5), 7);
}

#[test]
fn reversibility_mirrors_every_sample() {
    // Swapping the endpoints reflects each sample about the midpoint of
    // the endpoints: forward + reverse == initial + final, exactly.
    let mut forward = Tweener::new(Linear::new(10, 0, 3));
    let mut reverse = Tweener::new(Linear::new(0, 10, 3));
    for t in 0..=3i64 {
        let f = forward.move_to(t);
        let r = reverse.move_to(t);
        assert_eq!(f + r, 10);
    }
}
