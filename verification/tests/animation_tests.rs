use tweenfx::Animation;
use tweenfx::Fx;
use tweenfx::Timing;

fn fx(raw: i64) -> Fx {
    Fx::from_raw(raw)
}

fn fxi(v: i32) -> Fx {
    Fx::from_int(v)
}

fn approximately_equal(a: Fx, b: Fx) -> bool {
    let close = (a.raw - b.raw).abs() < 10;
    if !close {
        println!("approximately_equal failed: {} vs {}", a.raw, b.raw);
    }
    close
}

#[test]
fn animation_test_instant_animation() {
    let mut anim: Animation<Fx, Fx> = Animation::new(fxi(0), fxi(0), Timing::Linear);
    let clock = fxi(0);
    // If animation duration is 0.0 the transition should happen instantly
    // & require a redraw without any time passing
    assert_eq!(anim.position, fxi(0));
    anim.transition(fxi(10), clock);
    assert_eq!(anim.position, fxi(0));
    assert!(anim.tick(clock));
    assert_eq!(anim.position, fxi(10));
}

#[test]
fn animation_test_progression() {
    let mut anim: Animation<Fx, Fx> = Animation::new(fxi(0), fxi(1), Timing::Linear);
    let mut clock = fxi(0);
    // With a duration of 1.0 & linear timing we should be halfway to our
    // destination at 0.5
    anim.transition(fxi(10), clock);
    clock = clock.sat_add(fx(500_000));
    assert!(anim.tick(clock));
    assert_eq!(anim.position, fxi(5));
    clock = clock.sat_add(fx(500_000));
    assert!(anim.tick(clock));
    assert_eq!(anim.position, fxi(10));

    // Progression backward
    anim.duration_ms = fx(500_000);
    anim.transition(fxi(0), clock);
    clock = clock.sat_add(fx(500_000));
    assert!(anim.tick(clock));
    assert_eq!(anim.position, fxi(0));

    // Progression forward in thirds
    anim.duration_ms = fxi(1);
    anim.transition(fxi(10), clock);
    clock = clock.sat_add(fx(200_000));
    assert!(anim.tick(clock));
    assert!(approximately_equal(anim.position, fxi(2)));
    clock = clock.sat_add(fx(200_000));
    assert!(anim.tick(clock));
    assert!(approximately_equal(anim.position, fxi(4)));
    clock = clock.sat_add(fx(400_000));
    assert!(anim.tick(clock));
    assert!(approximately_equal(anim.position, fxi(8)));
    clock = clock.sat_add(fx(200_000));
    assert!(anim.tick(clock));
    assert!(approximately_equal(anim.position, fxi(10)));
}

#[test]
fn test_interrupt() {
    let mut anim: Animation<Fx, Fx> = Animation::new(fxi(0), fxi(1), Timing::Linear);
    let mut clock = fxi(0);
    // Interruptions should continue at the same speed the interrupted
    // animation was progressing at.
    anim.transition(fxi(10), clock);
    clock = clock.sat_add(fx(500_000));
    assert!(anim.tick(clock));
    assert_eq!(anim.position, fxi(5));
    // If we interrupt exactly halfway through distance & duration we
    // should arrive back at the start with another half of the duration
    anim.transition(fxi(0), clock);
    clock = clock.sat_add(fx(500_000));
    assert!(anim.tick(clock));
    assert_eq!(anim.position, fxi(0));
    assert!(!anim.animating());

    // Begin an animation
    anim.transition(fxi(10), clock);
    clock = clock.sat_add(fx(200_000));
    assert!(anim.tick(clock));
    assert!(anim.animating());
    assert!(approximately_equal(anim.position, fxi(2)));
    // Interrupt one fifth of the way through
    // The animation is playing at 10 units per time unit
    // The target is only 1.0 away
    // We should arrive at the target after 0.1 time units
    anim.transition(fxi(1), clock);
    clock = clock.sat_add(fx(100_001));
    assert!(anim.tick(clock));
    assert!(!anim.animating());
    assert!(approximately_equal(anim.position, fxi(1)));
}

#[test]
fn test_interrupt_nonlinear() {
    let mut anim: Animation<Fx, Fx> = Animation::new(fxi(1), fxi(10), Timing::EaseIn);
    let mut clock = fxi(0);

    // Interrupt halfway through with asymmetrical timing
    anim.transition(fxi(0), clock);
    assert!(anim.animating());
    assert_eq!(anim.position, fxi(1));
    clock = clock.sat_add(fxi(1));
    assert!(anim.tick(clock));
    let progress_at_interrupt = anim.timed_progress();
    assert_eq!(progress_at_interrupt, fxi(1).sat_sub(Timing::EaseIn.timing(fx(100_000))));

    // Interrupted animation should begin from wherever the timed function
    // was interrupted, which is different from the linear progress.
    anim.transition(fxi(1), clock);
    assert_eq!(anim.animation_state.unwrap().destination, fxi(1));
    assert_eq!(anim.timed_progress(), progress_at_interrupt);
    assert!(anim.animating());
    assert!(anim.animation_state.unwrap().speed_at_interrupt.is_some());
    // Since we've interrupted at some in-between, non-linear point in
    // the animation, the time it takes to finish won't be as clean.
    // It should take a bit less time to return home because it's an
    // EaseIn timing curve. The animation we interrupted was easing in
    // & therefore closer to where it started.
    clock = clock.sat_add(fxi(3));
    assert!(anim.tick(clock));
    assert_eq!(anim.position, fxi(1));
    assert!(!anim.animating());
}

#[test]
fn animation_test_multiple_interrupts_start_forward() {
    let mut anim: Animation<Fx, Fx> = Animation::new(fxi(0), fxi(1), Timing::EaseInOut);
    let mut clock = fxi(0);
    anim.transition(fxi(1), clock);
    clock = clock.sat_add(fx(500_000));
    assert!(anim.tick(clock));
    assert!(anim.animating());
    let progress_at_interrupt = anim.timed_progress();
    assert_eq!(progress_at_interrupt, Timing::EaseInOut.timing(fx(500_000)));
    anim.transition(fxi(0), clock);
    clock = clock.sat_add(fx(200_000));
    assert_eq!(anim.timed_progress(), progress_at_interrupt);
    assert!(anim.tick(clock));
    assert!(anim.animating());
    anim.transition(fxi(1), clock);
    clock = clock.sat_add(fx(200_000));
    assert!(anim.tick(clock));
    assert!(anim.animating());
}
