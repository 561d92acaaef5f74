use tweenfx::Animated;
use tweenfx::Easing;
use tweenfx::Fx;

fn fx(raw: i64) -> Fx {
    Fx::from_raw(raw)
}

fn fxi(v: i32) -> Fx {
    Fx::from_int(v)
}

fn approximately_equal(a: Fx, b: Fx) -> bool {
    let close = (a.raw - b.raw).abs() < 10;
    if !close {
        println!("approximately_equal failed: {} vs {}", a.raw, b.raw);
    }
    close
}

#[test]
fn test_repeat_forever() {
    let mut anim: Animated<Fx, Fx> = Animated::new(fxi(0))
        .duration(fxi(1000))
        .easing(Easing::Linear)
        .repeat_forever();

    anim.transition(fxi(10), fxi(0));

    // Test progression over multiple cycles
    assert_eq!(anim.eased_progress(fxi(0)), fxi(0));
    assert_eq!(anim.eased_progress(fxi(500)), fxi(5));
    assert_eq!(anim.eased_progress(fxi(1000)), fxi(0));
    assert_eq!(anim.eased_progress(fxi(1500)), fxi(5));
    assert_eq!(anim.eased_progress(fxi(2000)), fxi(0));
    assert_eq!(anim.eased_progress(fxi(2500)), fxi(5));

    // Ensure animation is still in progress after multiple cycles
    assert!(anim.in_progress(fxi(10000)));
}

fn plot_easing(easing: Easing) {
    const WIDTH: usize = 80;
    const HEIGHT: usize = 40;
    let mut plot = vec![vec![' '; WIDTH]; HEIGHT];

    for x in 0..WIDTH {
        let t = x as f32 / (WIDTH - 1) as f32;
        let t_fx = Fx::from_raw((t * 1_000_000.0) as i64);
        let y = easing.value(t_fx).raw as f32 / 1_000_000.0;
        let y_scaled = ((1.0 - y) * (HEIGHT - 20) as f32).round() as usize + 10;
        let y_scaled = y_scaled.min(HEIGHT - 1);
        plot[y_scaled][x] = '*';
    }

    println!("\nPlot for {:?}:", easing);
    for row in plot {
        println!("{}", row.iter().collect::<String>());
    }
    println!();
}

#[test]
fn visualize_all_easings() {
    let easings = [
        Easing::Linear,
        Easing::EaseIn,
        Easing::EaseOut,
        Easing::EaseInOut,
        Easing::EaseInQuad,
        Easing::EaseOutQuad,
        Easing::EaseInOutQuad,
        Easing::EaseInCubic,
        Easing::EaseOutCubic,
        Easing::EaseInOutCubic,
        Easing::EaseInQuart,
        Easing::EaseOutQuart,
        Easing::EaseInOutQuart,
        Easing::EaseInQuint,
        Easing::EaseOutQuint,
        Easing::EaseInOutQuint,
        Easing::EaseInExpo,
        Easing::EaseOutExpo,
        Easing::EaseInOutExpo,
        Easing::EaseInCirc,
        Easing::EaseOutCirc,
        Easing::EaseInOutCirc,
        Easing::EaseInBack,
        Easing::EaseOutBack,
        Easing::EaseInOutBack,
        Easing::EaseInElastic,
        Easing::EaseOutElastic,
        Easing::EaseInOutElastic,
        Easing::EaseInBounce,
        Easing::EaseOutBounce,
        Easing::EaseInOutBounce,
    ];

    for easing in &easings {
        plot_easing(*easing);
    }
}

#[test]
fn test_linear_progress() {
    let mut anim: Animated<Fx, Fx> = Animated::new(fxi(0)).duration(fxi(1000)).easing(Easing::Linear);
    anim.transition(fxi(10), fxi(0));

    assert_eq!(anim.linear_progress(fxi(0)), fxi(0));
    assert_eq!(anim.linear_progress(fxi(500)), fxi(5));
    assert_eq!(anim.linear_progress(fxi(1000)), fxi(10));
    assert_eq!(anim.linear_progress(fxi(1500)), fxi(10)); // Stays at destination after completion
}

#[test]
fn test_eased_progress_with_easing() {
    let mut anim: Animated<Fx, Fx> = Animated::new(fxi(0)).duration(fxi(1000)).easing(Easing::EaseIn);
    anim.transition(fxi(10), fxi(0));

    assert_eq!(anim.eased_progress(fxi(0)), fxi(0));
    assert!(anim.eased_progress(fxi(500)).raw < fxi(5).raw); // Should be less than linear due to ease-in
    assert_eq!(anim.eased_progress(fxi(1000)), fxi(10));
}

#[test]
fn test_in_progress() {
    let mut anim: Animated<Fx, Fx> = Animated::new(fxi(0)).duration(fxi(1000)).easing(Easing::EaseIn);
    assert!(!anim.in_progress(fxi(0)));

    anim.transition(fxi(10), fxi(0));
    assert!(anim.in_progress(fxi(0)));
    assert!(anim.in_progress(fxi(500)));
    assert!(!anim.in_progress(fxi(1000)));
}

#[test]
fn test_repetitions() {
    let mut anim: Animated<Fx, Fx> = Animated::new(fxi(0))
        .duration(fxi(1000))
        .easing(Easing::Linear)
        .repeat(3);
    anim.transition(fxi(10), fxi(0));

    assert_eq!(anim.linear_progress(fxi(1500)), fxi(5)); // Middle of second repetition
    assert_eq!(anim.linear_progress(fxi(3000)), fxi(10)); // End of third repetition
    assert!(!anim.in_progress(fxi(5001)));
    assert_eq!(anim.linear_progress(fxi(3500)), fxi(10)); // Stays at destination after all repetitions
}

#[test]
fn test_auto_reverse_repetitions() {
    let mut anim: Animated<Fx, Fx> = Animated::new(fxi(0))
        .duration(fxi(1000))
        .easing(Easing::Linear)
        .auto_reverse()
        .repeat(2);
    anim.transition(fxi(10), fxi(0));

    assert_eq!(anim.linear_progress(fxi(500)), fxi(5)); // Middle of first forward
    assert_eq!(anim.linear_progress(fxi(1500)), fxi(5)); // Middle of first reverse
    assert_eq!(anim.linear_progress(fxi(2500)), fxi(5)); // Middle of second forward
    assert_eq!(anim.linear_progress(fxi(3500)), fxi(5)); // Middle of second reverse
    assert_eq!(anim.linear_progress(fxi(4000)), fxi(0)); // End at start position
    assert!(!anim.in_progress(fxi(5000)));
}

#[test]
fn test_auto_reverse_repetitions_bool() {
    let anim: Animated<bool, Fx> = Animated::new(false)
        .duration(fxi(1000))
        .auto_start(true, fxi(0))
        .repeat(2)
        .auto_reverse();
    assert_eq!(anim.linear_progress(fxi(500)), fx(500_000)); // Middle of first forward
    assert_eq!(anim.linear_progress(fxi(1500)), fx(500_000)); // Middle of first reverse
    assert_eq!(anim.linear_progress(fxi(2500)), fx(500_000)); // Middle of second forward
    assert_eq!(anim.linear_progress(fxi(3500)), fx(500_000)); // Middle of second reverse
    assert!(anim.in_progress(fxi(3500)));
    assert_eq!(anim.linear_progress(fxi(4000)), fxi(0)); // End at start position
    assert!(!anim.in_progress(fx(5_000_010_000)));
}

#[test]
fn test_delay() {
    let mut anim: Animated<Fx, Fx> = Animated::new(fxi(0))
        .duration(fxi(1000))
        .easing(Easing::Linear)
        .delay(fxi(500));
    anim.transition(fxi(10), fxi(0));

    assert_eq!(anim.linear_progress(fxi(250)), fxi(0)); // Still in delay
    assert_eq!(anim.linear_progress(fxi(750)), fx(2_500_000)); // 25% progress after delay
    assert_eq!(anim.linear_progress(fxi(1500)), fxi(10)); // Completed
}

#[test]
fn test_interruption() {
    let mut anim: Animated<Fx, Fx> = Animated::new(fxi(0)).duration(fxi(1000)).easing(Easing::Linear);
    anim.transition(fxi(10), fxi(0));

    assert_eq!(anim.linear_progress(fxi(500)), fxi(5));

    anim.transition(fxi(20), fxi(500)); // Interrupt halfway
    assert_eq!(anim.animation.origin, fxi(5)); // New origin should be the current progress
    assert_eq!(anim.linear_progress(fxi(1000)), fx(12_500_000)); // Halfway to new destination
    assert_eq!(anim.linear_progress(fxi(1500)), fxi(20)); // Completed to new destination
}

#[test]
fn animated_test_instant_animation() {
    let mut anim: Animated<Fx, Fx> = Animated::new(fxi(0)).duration(fxi(0)).easing(Easing::Linear);
    assert_eq!(anim.linear_progress(fxi(0)), fxi(0));
    // If animation duration is 0.0 the transition should happen instantly
    // & require a redraw without any time passing
    anim.transition(fxi(10), fxi(0));
    assert_eq!(anim.linear_progress(fxi(0)), fxi(10));
}

#[test]
fn animated_test_progression() {
    let mut anim: Animated<Fx, Fx> = Animated::new(fxi(0)).duration(fxi(1)).easing(Easing::Linear);
    // With a duration of 1.0 & linear timing we should be halfway to our
    // destination at 0.5
    anim.transition(fxi(10), fx(500_000));
    assert_eq!(anim.value, fxi(10));
    assert_eq!(anim.linear_progress(fxi(1)), fxi(5));
    assert_eq!(anim.linear_progress(fx(1_500_000)), fxi(10));

    // Progression backward
    anim.transition(fxi(0), fx(1_500_000));
    assert_eq!(anim.value, fxi(0));
    assert_eq!(anim.linear_progress(fx(2_500_000)), fxi(0));

    // Progression forward in fractions
    anim.transition(fxi(10), fxi(3));
    assert_eq!(anim.value, fxi(10));
    assert!(approximately_equal(anim.linear_progress(fxi(3)), fxi(0)));
    assert!(approximately_equal(anim.linear_progress(fx(3_200_000)), fxi(2)));
    assert!(approximately_equal(anim.linear_progress(fx(3_800_000)), fxi(8)));
    assert!(approximately_equal(anim.linear_progress(fxi(4)), fxi(10)));
}

#[test]
fn test_progression_negative() {
    let mut anim: Animated<Fx, Fx> = Animated::new(fxi(0)).duration(fxi(1)).easing(Easing::EaseInOut);

    anim.transition(fxi(-10), fxi(0));
    assert_eq!(anim.linear_progress(fx(500_000)), fxi(-5));
    assert_eq!(anim.linear_progress(fxi(1)), fxi(-10));

    assert!(anim.eased_progress(fx(250_000)).raw > anim.linear_progress(fx(250_000)).raw);
    assert!(anim.eased_progress(fx(500_000)).raw == anim.linear_progress(fx(500_000)).raw);
    assert!(anim.eased_progress(fx(750_000)).raw < anim.linear_progress(fx(750_000)).raw);

    anim.transition(fxi(0), fxi(1));
    assert_eq!(anim.linear_progress(fx(1_500_000)), fxi(-5));
    assert_eq!(anim.linear_progress(fxi(2)), fxi(0));
}

#[test]
fn animated_test_multiple_interrupts_start_forward() {
    let mut anim: Animated<Fx, Fx> = Animated::new(fxi(0)).duration(fxi(1)).easing(Easing::EaseInOut);
    anim.transition(fxi(1), fxi(0));
    assert!(anim.in_progress(fx(500_000)));
    let progress_at_interrupt = anim.eased_progress(fx(500_000));
    assert_eq!(progress_at_interrupt, Easing::EaseInOut.value(fx(500_000)));
    anim.transition(fxi(0), fx(500_000));
    assert_eq!(anim.eased_progress(fx(500_000)), progress_at_interrupt);
    assert!(anim.in_progress(fx(700_000)));
    anim.transition(fxi(1), fx(700_000));
    assert!(anim.in_progress(fx(900_000)));
}

#[test]
fn test_asymmetric() {
    let mut anim: Animated<Fx, Fx> = Animated::new(fxi(0))
        .duration(fxi(1000))
        .easing(Easing::Linear)
        .asymmetric_duration(fxi(2000))
        .asymmetric_easing(Easing::EaseInOut);

    anim.transition(fxi(10), fxi(0));
    assert_eq!(anim.linear_progress(fxi(500)), fxi(5)); // 50% forward
    assert_eq!(anim.linear_progress(fxi(1000)), fxi(10)); // 100% forward

    anim.transition(fxi(0), fxi(1000));
    assert_eq!(anim.linear_progress(fxi(1500)), fx(7_500_000)); // 25% backwards
    assert_eq!(anim.linear_progress(fxi(2000)), fxi(5)); // 50% backwards
    assert_eq!(anim.linear_progress(fxi(2500)), fx(2_500_000)); // 75% backwards
    assert_eq!(anim.linear_progress(fxi(3000)), fxi(0)); // 100% backwards

    anim.transition(fxi(10), fxi(3000));
    assert_eq!(anim.linear_progress(fxi(3250)), fx(2_500_000)); // 25% second forward
    assert_eq!(anim.linear_progress(fxi(3500)), fxi(5)); // 50% second forward
    assert_eq!(anim.linear_progress(fxi(3750)), fx(7_500_000)); // 75% second forward
    assert_eq!(anim.linear_progress(fxi(4000)), fxi(10)); // 100% second forward
}

#[test]
fn test_asymmetric_auto_reversal() {
    let mut anim: Animated<Fx, Fx> = Animated::new(fxi(0))
        .duration(fxi(1000))
        .easing(Easing::Linear)
        .asymmetric_duration(fxi(2000))
        .asymmetric_easing(Easing::EaseInOut)
        .auto_reverse()
        .repeat(1);

    anim.transition(fxi(10), fxi(0));

    // ->
    assert_eq!(anim.linear_progress(fxi(500)), fxi(5)); // 50% forward
    assert_eq!(anim.linear_progress(fxi(1000)), fxi(0)); // 100% forward

    // <-
    assert_eq!(anim.linear_progress(fxi(1500)), fx(7_500_000)); // 25% backwards
    assert_eq!(anim.linear_progress(fxi(2000)), fxi(5)); // 50% backwards
    assert_eq!(anim.linear_progress(fxi(2500)), fx(2_500_000)); // 75% backwards
    assert_eq!(anim.linear_progress(fxi(3000)), fxi(0)); // 100% backwards

    assert!(anim.eased_progress(fxi(1500)).raw > anim.linear_progress(fxi(1500)).raw); // 25% backwards
    assert!(anim.eased_progress(fxi(2000)).raw == anim.linear_progress(fxi(2000)).raw); // 50% backwards
    assert!(anim.eased_progress(fxi(2500)).raw < anim.linear_progress(fxi(2500)).raw); // 75% backwards

    // Terminal: the forward and backward legs have both played, so the
    // animation is complete and pinned back at the origin.
    assert!(!anim.in_progress(fxi(3000)));
    assert_eq!(anim.linear_progress(fxi(3250)), fxi(0));
    assert_eq!(anim.linear_progress(fxi(3500)), fxi(0));
    assert_eq!(anim.linear_progress(fxi(3750)), fxi(0));
    assert_eq!(anim.linear_progress(fxi(4000)), fxi(0));

    assert!(anim.eased_progress(fxi(3250)).raw == anim.linear_progress(fxi(3250)).raw);
    assert!(anim.eased_progress(fxi(3500)).raw == anim.linear_progress(fxi(3500)).raw);
    assert!(anim.eased_progress(fxi(3750)).raw == anim.linear_progress(fxi(3750)).raw);
}

#[test]
fn test_auto_reversal() {
    let mut anim: Animated<Fx, Fx> = Animated::new(fxi(0))
        .duration(fxi(1000))
        .easing(Easing::EaseInOut)
        .auto_reverse()
        .repeat(1);

    anim.transition(fxi(10), fxi(0));

    assert_eq!(anim.linear_progress(fxi(0)), fxi(0));

    // ->
    assert_eq!(anim.linear_progress(fxi(250)), fx(2_500_000)); // 25% forward
    assert_eq!(anim.linear_progress(fxi(500)), fxi(5)); // 50% forward
    assert_eq!(anim.linear_progress(fxi(750)), fx(7_500_000)); // 75% forward
    assert_eq!(anim.linear_progress(fxi(1000)), fxi(0)); // 100% forward

    assert!(anim.eased_progress(fxi(250)).raw < anim.linear_progress(fxi(250)).raw);
    assert!(anim.eased_progress(fxi(500)).raw == anim.linear_progress(fxi(500)).raw);
    assert!(anim.eased_progress(fxi(750)).raw > anim.linear_progress(fxi(750)).raw);

    // <-
    assert_eq!(anim.linear_progress(fxi(1250)), fx(7_500_000)); // 25% backwards
    assert_eq!(anim.linear_progress(fxi(1500)), fxi(5)); // 50% backwards
    assert_eq!(anim.linear_progress(fxi(1750)), fx(2_500_000)); // 75% backwards
    assert_eq!(anim.linear_progress(fxi(2000)), fxi(0)); // 100% backwards

    assert!(anim.eased_progress(fxi(1250)).raw > anim.linear_progress(fxi(1250)).raw);
    assert!(anim.eased_progress(fxi(1500)).raw == anim.linear_progress(fxi(1500)).raw);
    assert!(anim.eased_progress(fxi(1750)).raw < anim.linear_progress(fxi(1750)).raw);

    // Terminal: the repetition and its reverse leg have both played, so the
    // animation is complete and pinned back at the origin.
    assert!(!anim.in_progress(fxi(2000)));
    assert_eq!(anim.linear_progress(fxi(2250)), fxi(0));
    assert_eq!(anim.linear_progress(fxi(2500)), fxi(0));
    assert_eq!(anim.linear_progress(fxi(2750)), fxi(0));
    assert_eq!(anim.linear_progress(fxi(3000)), fxi(0));
}

#[test]
fn test_transition_instantaneous() {
    let mut anim: Animated<Fx, Fx> = Animated::new(fxi(0)).duration(fxi(1000)).easing(Easing::Linear);
    anim.transition_instantaneous(fxi(10), fxi(0));
    assert_eq!(anim.value, fxi(10));
    assert_eq!(anim.linear_progress(fxi(0)), fxi(10));
    assert_eq!(anim.linear_progress(fxi(1)), fxi(10));
    anim.transition_instantaneous(fxi(0), fxi(1));
    assert_eq!(anim.value, fxi(0));
    assert_eq!(anim.linear_progress(fxi(1)), fxi(0));
    assert_eq!(anim.linear_progress(fxi(2)), fxi(0));
    anim.transition(fxi(10), fxi(10));
    assert_eq!(anim.value, fxi(10));
    assert_eq!(anim.linear_progress(fxi(10)), fxi(0));
    assert_eq!(anim.linear_progress(fxi(1010)), fxi(10));
    anim.transition_instantaneous(fxi(0), fxi(1010));
    assert_eq!(anim.value, fxi(0));
    assert_eq!(anim.linear_progress(fxi(1010)), fxi(0));
    assert_eq!(anim.linear_progress(fxi(1011)), fxi(0));
    assert_eq!(anim.linear_progress(fxi(1020)), fxi(0));
}

#[test]
fn test_negative_values() {
    let mut anim: Animated<Fx, Fx> = Animated::new(fxi(0)).duration(fxi(1000)).easing(Easing::Linear);
    anim.transition(fxi(-10), fxi(0));
    assert_eq!(anim.linear_progress(fxi(0)), fxi(0));
    assert_eq!(anim.linear_progress(fxi(500)), fxi(-5));
    assert_eq!(anim.linear_progress(fxi(1000)), fxi(-10));
    anim.transition(fxi(-5), fxi(1000));
    assert_eq!(anim.linear_progress(fxi(1000)), fxi(-10));
    assert_eq!(anim.linear_progress(fxi(1500)), fx(-7_500_000));
    assert_eq!(anim.linear_progress(fxi(2000)), fxi(-5));
}

#[test]
fn test_negative_to_positive_transition() {
    let mut anim: Animated<Fx, Fx> = Animated::new(fxi(-5)).duration(fxi(1000)).easing(Easing::Linear);
    anim.transition(fxi(5), fxi(0));
    assert_eq!(anim.linear_progress(fxi(0)), fxi(-5));
    assert_eq!(anim.linear_progress(fxi(500)), fxi(0));
    assert_eq!(anim.linear_progress(fxi(1000)), fxi(5));
}

#[test]
fn test_interruption_with_negative_values() {
    let mut anim: Animated<Fx, Fx> = Animated::new(fxi(0)).duration(fxi(1000)).easing(Easing::Linear);
    anim.transition(fxi(-10), fxi(0));
    assert_eq!(anim.linear_progress(fxi(250)), fx(-2_500_000));
    anim.transition(fxi(5), fxi(250)); // Interrupt at 25%
    assert_eq!(anim.animation.origin, fx(-2_500_000)); // New origin should be the current progress
    assert_eq!(anim.linear_progress(fxi(750)), fx(1_250_000)); // Halfway to new destination
    assert_eq!(anim.linear_progress(fxi(1250)), fxi(5)); // Completed to new destination
}

#[test]
fn test_multiple_interruptions() {
    let mut anim: Animated<Fx, Fx> = Animated::new(fxi(0)).duration(fxi(1000)).easing(Easing::Linear);
    anim.transition(fxi(10), fxi(0));
    assert_eq!(anim.linear_progress(fxi(500)), fxi(5));
    anim.transition(fxi(15), fxi(500)); // First interruption
    assert_eq!(anim.linear_progress(fxi(1000)), fxi(10)); // 50% to new destination
    anim.transition(fxi(0), fxi(1000)); // Second interruption
    assert_eq!(anim.animation.origin, fxi(10)); // New origin after second interruption
    assert_eq!(anim.linear_progress(fxi(1500)), fxi(5)); // Halfway to final destination
    assert_eq!(anim.linear_progress(fxi(2000)), fxi(0)); // Completed to final destination
}

#[test]
fn test_interrupt_unchanged_destination() {
    // Interrupts that don't change the destination shouldn't change duration.
    // Despite the majority of other cases where we have to.
    let mut anim_a: Animated<Fx, Fx> = Animated::new(fxi(0)).duration(fxi(1000)).easing(Easing::Linear);
    let mut anim_b: Animated<Fx, Fx> = Animated::new(fxi(0)).duration(fxi(1000)).easing(Easing::Linear);
    anim_a.transition(fxi(10), fxi(0));
    anim_b.transition(fxi(10), fxi(0));

    anim_a.transition(fxi(10), fxi(250));
    assert_eq!(anim_a.linear_progress(fxi(250)), anim_b.linear_progress(fxi(250)));
    assert_eq!(anim_a.linear_progress(fxi(500)), anim_b.linear_progress(fxi(500)));
    assert_eq!(anim_a.linear_progress(fxi(750)), anim_b.linear_progress(fxi(750)));
    assert_eq!(anim_a.linear_progress(fxi(1000)), anim_b.linear_progress(fxi(1000)));
}

#[test]
fn test_interruption_with_direction_change() {
    let mut anim: Animated<Fx, Fx> = Animated::new(fxi(0)).duration(fxi(1000)).easing(Easing::Linear);
    anim.transition(fxi(10), fxi(0));
    assert_eq!(anim.linear_progress(fxi(500)), fxi(5));
    anim.transition(fxi(-5), fxi(500)); // Interrupt and change direction
    assert_eq!(anim.animation.origin, fxi(5)); // New origin should be the current progress
    assert_eq!(anim.linear_progress(fxi(1000)), fxi(0)); // Halfway back to new destination
    assert_eq!(anim.linear_progress(fxi(1500)), fxi(-5)); // Completed to new destination
}

#[test]
fn test_zero_duration_transition() {
    let mut anim: Animated<Fx, Fx> = Animated::new(fxi(0)).duration(fxi(0)).easing(Easing::Linear);
    anim.transition(fxi(10), fxi(0));
    assert_eq!(anim.linear_progress(fxi(0)), fxi(10)); // Should immediately reach the destination
    assert!(!anim.in_progress(fxi(0))); // Should not be in progress
}

#[test]
fn test_interruption_at_completion() {
    let mut anim: Animated<Fx, Fx> = Animated::new(fxi(0)).duration(fxi(1000)).easing(Easing::Linear);
    anim.transition(fxi(10), fxi(0));
    assert_eq!(anim.linear_progress(fxi(1000)), fxi(10)); // Completed
    anim.transition(fxi(20), fxi(1000)); // Interrupt right at completion
    assert_eq!(anim.animation.origin, fxi(10)); // New origin should be the completed value
    assert_eq!(anim.linear_progress(fxi(1500)), fxi(15)); // Halfway to new destination
    assert_eq!(anim.linear_progress(fxi(2000)), fxi(20)); // Completed to new destination
}

#[test]
fn test_animate() {
    let mut anim: Animated<Fx, Fx> = Animated::new(fxi(0))
        .duration(fxi(1000))
        .easing(Easing::Linear);
    anim.transition(fxi(10), fxi(0));

    let result = anim.animate(|v| v, fxi(500));
    assert_eq!(result, fxi(5));

    let result = anim.animate(|v: Fx| v.sat_mul(fxi(2)), fxi(750));
    assert_eq!(result, fxi(15));
}

#[test]
fn test_animate_if_eq() {
    let mut anim: Animated<Fx, Fx> = Animated::new(fxi(0))
        .duration(fxi(1000))
        .easing(Easing::Linear);
    anim.transition(fxi(10), fxi(0));

    let result = anim.animate_if_eq(fxi(10), fxi(100), fxi(0), fxi(500));
    assert_eq!(result, fxi(50));

    let result = anim.animate_if_eq(fxi(5), fxi(100), fxi(0), fxi(500));
    assert_eq!(result, fxi(0));
}

#[test]
fn test_animate_bool() {
    let mut anim: Animated<bool, Fx> = Animated::new(false).duration(fxi(1000)).easing(Easing::Linear);
    anim.transition(true, fxi(0));

    let result = anim.animate_bool(fxi(0), fxi(10), fxi(500));
    assert_eq!(result, fxi(5));

    let result = anim.animate_bool(fxi(0), fxi(10), fxi(1000));
    assert_eq!(result, fxi(10));
}

#[test]
fn test_animate_with_interruption() {
    let mut anim: Animated<Fx, Fx> = Animated::new(fxi(0))
        .duration(fxi(1000))
        .easing(Easing::Linear);
    anim.transition(fxi(10), fxi(0));

    let result = anim.animate(|v| v, fxi(500));
    assert_eq!(result, fxi(5));

    anim.transition(fxi(20), fxi(500));
    let result = anim.animate(|v| v, fxi(1000));
    assert_eq!(result, fx(12_500_000));

    let result = anim.animate(|v| v, fxi(1500));
    assert_eq!(result, fxi(20));
}

#[test]
fn test_no_change_after_completion() {
    let anim: Animated<bool, Fx> = Animated::new(false)
        .duration(fxi(400))
        .auto_start(true, fxi(0))
        .repeat(2)
        .auto_reverse();
    // Begin
    assert_eq!(anim.animate_bool(fxi(0), fxi(10), fxi(800)), fxi(0));
    assert_eq!(anim.animate_bool(fxi(0), fxi(10), fxi(1000)), fxi(5));
    assert_eq!(anim.animate_bool(fxi(0), fxi(10), fxi(1200)), fxi(0));
    assert_eq!(anim.animate_bool(fxi(0), fxi(10), fxi(1400)), fxi(5));

    // Completion: two repetitions and their reverse legs have played, and
    // the even number of legs terminates back at the origin.
    assert_eq!(anim.animate_bool(fxi(0), fxi(10), fxi(1600)), fxi(0));

    // No changes after completion
    assert_eq!(anim.animate_bool(fxi(0), fxi(10), fxi(1800)), fxi(0));
    assert_eq!(anim.animate_bool(fxi(0), fxi(10), fxi(2000)), fxi(0));
    assert_eq!(anim.animate_bool(fxi(0), fxi(10), fxi(2200)), fxi(0));
    assert_eq!(anim.animate_bool(fxi(0), fxi(10), fxi(2400)), fxi(0));
    assert_eq!(anim.animate_bool(fxi(0), fxi(10), fxi(2600)), fxi(0));
    assert_eq!(anim.animate_bool(fxi(0), fxi(10), fxi(2800)), fxi(0));
    assert_eq!(anim.animate_bool(fxi(0), fxi(10), fxi(3000)), fxi(0));
}
